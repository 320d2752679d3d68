use mshio::mshfile::ElementType;
use mshio::{parse_msh_bytes, MshFile, MshParserError};

/// Returns whether the supplied data can be parsed successfully as a MSH file
fn msh_parses(msh: &[u8]) -> bool {
    match parse_msh_bytes(msh) {
        Ok(_) => true,
        Err(err) => {
            print_error_report(&err, msh);
            false
        }
    }
}

fn print_error_report(error: &MshParserError, input: &[u8]) {
    println!("Test error:\n{}", error.report(input));
    println!("Error debug: {:?}", error);
}

/// A block of elements of a test mesh
struct Block {
    entity_dim: i32,
    entity_tag: i32,
    element_type: ElementType,
    count: usize,
}

/// The numbers of entities of a test mesh
struct EntityCounts {
    points: usize,
    curves: usize,
    surfaces: usize,
    volumes: usize,
}

/// A test mesh: its nodes are numbered from `first_tag` on in steps of `tag_step`
struct Mesh {
    entities: Option<EntityCounts>,
    node_blocks: Vec<usize>,
    first_tag: u64,
    tag_step: u64,
    blocks: Vec<Block>,
}

fn coordinates(index: usize) -> (f64, f64, f64) {
    let i = index as f64;
    (i * 0.5, 1.0 - i * 0.25, i * i / 8.0)
}

fn node_total(mesh: &Mesh) -> usize {
    mesh.node_blocks.iter().sum()
}

fn element_total(mesh: &Mesh) -> usize {
    mesh.blocks.iter().map(|b| b.count).sum()
}

/// The numbers of a test mesh in the order of the file: the words of each
/// section, each a `size_t`, an `int` or a `double`
enum Word {
    Size(u64),
    Int(i32),
    Double(f64),
    Line,
    Text(&'static str),
}

fn entity_words(words: &mut Vec<Word>, counts: &EntityCounts) {
    words.push(Word::Text("$Entities"));
    words.push(Word::Size(counts.points as u64));
    words.push(Word::Size(counts.curves as u64));
    words.push(Word::Size(counts.surfaces as u64));
    words.push(Word::Size(counts.volumes as u64));
    words.push(Word::Line);
    for i in 0..counts.points {
        let (x, y, z) = coordinates(i);
        words.push(Word::Int(i as i32 + 1));
        words.push(Word::Double(x));
        words.push(Word::Double(y));
        words.push(Word::Double(z));
        words.push(Word::Size(1));
        words.push(Word::Int(7));
        words.push(Word::Line);
    }
    for bounded in [counts.curves, counts.surfaces, counts.volumes] {
        for i in 0..bounded {
            words.push(Word::Int(i as i32 + 1));
            for c in 0..6 {
                words.push(Word::Double(c as f64 - 2.5));
            }
            words.push(Word::Size(0));
            words.push(Word::Size(2));
            words.push(Word::Int(1));
            words.push(Word::Int(-2));
            words.push(Word::Line);
        }
    }
    words.push(Word::Text("$EndEntities"));
}

fn node_words(words: &mut Vec<Word>, mesh: &Mesh) {
    let total = node_total(mesh) as u64;
    words.push(Word::Text("$Nodes"));
    words.push(Word::Size(mesh.node_blocks.len() as u64));
    words.push(Word::Size(total));
    words.push(Word::Size(mesh.first_tag));
    words.push(Word::Size(mesh.first_tag + (total - 1) * mesh.tag_step));
    words.push(Word::Line);
    let mut index = 0;
    for (b, count) in mesh.node_blocks.iter().enumerate() {
        words.push(Word::Int(2));
        words.push(Word::Int(b as i32 + 1));
        words.push(Word::Int(0));
        words.push(Word::Size(*count as u64));
        words.push(Word::Line);
        for i in 0..*count {
            words.push(Word::Size(mesh.first_tag + (index + i) as u64 * mesh.tag_step));
            words.push(Word::Line);
        }
        for i in 0..*count {
            let (x, y, z) = coordinates(index + i);
            words.push(Word::Double(x));
            words.push(Word::Double(y));
            words.push(Word::Double(z));
            words.push(Word::Line);
        }
        index += count;
    }
    words.push(Word::Text("$EndNodes"));
}

fn element_words(words: &mut Vec<Word>, mesh: &Mesh) {
    let total = element_total(mesh) as u64;
    let nodes = node_total(mesh) as u64;
    words.push(Word::Text("$Elements"));
    words.push(Word::Size(mesh.blocks.len() as u64));
    words.push(Word::Size(total));
    words.push(Word::Size(1));
    words.push(Word::Size(total));
    words.push(Word::Line);
    let mut tag = 1;
    for block in mesh.blocks.iter() {
        words.push(Word::Int(block.entity_dim));
        words.push(Word::Int(block.entity_tag));
        words.push(Word::Int(block.element_type.code()));
        words.push(Word::Size(block.count as u64));
        words.push(Word::Line);
        for _ in 0..block.count {
            words.push(Word::Size(tag));
            for n in 0..block.element_type.nodes().unwrap() as u64 {
                words.push(Word::Size(mesh.first_tag + ((tag + n) % nodes) * mesh.tag_step));
            }
            words.push(Word::Line);
            tag += 1;
        }
    }
    words.push(Word::Text("$EndElements"));
}

fn words_of(mesh: &Mesh) -> Vec<Word> {
    let mut words = Vec::new();
    if let Some(counts) = &mesh.entities {
        entity_words(&mut words, counts);
    }
    node_words(&mut words, mesh);
    element_words(&mut words, mesh);
    words
}

/// The test mesh as an ASCII encoded file
fn ascii_file(mesh: &Mesh) -> Vec<u8> {
    let mut text = String::from("$MeshFormat\n4.1 0 8\n$EndMeshFormat\n");
    for word in words_of(mesh) {
        match word {
            Word::Size(v) => text.push_str(&format!("{} ", v)),
            Word::Int(v) => text.push_str(&format!("{} ", v)),
            Word::Double(v) => text.push_str(&format!("{} ", v)),
            Word::Line => text.push('\n'),
            Word::Text(t) => {
                if t.starts_with("$End") {
                    text.push_str(&format!("{}\n", t));
                } else {
                    text.push_str(&format!("{}\n", t));
                }
            }
        }
    }
    text.into_bytes()
}

/// The test mesh as a binary encoded file
fn binary_file(mesh: &Mesh, little: bool) -> Vec<u8> {
    let mut bytes = Vec::new();
    bytes.extend_from_slice(b"$MeshFormat\n4.1 1 8\n");
    if little {
        bytes.extend_from_slice(&1i32.to_le_bytes());
    } else {
        bytes.extend_from_slice(&1i32.to_be_bytes());
    }
    bytes.extend_from_slice(b"\n$EndMeshFormat\n");
    for word in words_of(mesh) {
        match word {
            Word::Size(v) => {
                if little {
                    bytes.extend_from_slice(&v.to_le_bytes())
                } else {
                    bytes.extend_from_slice(&v.to_be_bytes())
                }
            }
            Word::Int(v) => {
                if little {
                    bytes.extend_from_slice(&v.to_le_bytes())
                } else {
                    bytes.extend_from_slice(&v.to_be_bytes())
                }
            }
            Word::Double(v) => {
                if little {
                    bytes.extend_from_slice(&v.to_le_bytes())
                } else {
                    bytes.extend_from_slice(&v.to_be_bytes())
                }
            }
            Word::Line => {}
            Word::Text(t) => {
                if t.starts_with("$End") {
                    bytes.extend_from_slice(b"\n");
                }
                bytes.extend_from_slice(t.as_bytes());
                bytes.extend_from_slice(b"\n");
            }
        }
    }
    bytes
}

fn simple_mesh(nodes: usize, blocks: Vec<Block>) -> Mesh {
    Mesh {
        entities: None,
        node_blocks: vec![nodes],
        first_tag: 1,
        tag_step: 1,
        blocks,
    }
}

fn block(entity_dim: i32, element_type: ElementType, count: usize) -> Block {
    Block {
        entity_dim,
        entity_tag: 1,
        element_type,
        count,
    }
}

/// A mesh of 25 nodes and 20 quadrilaterals
fn circle_2d() -> Mesh {
    simple_mesh(25, vec![block(2, ElementType::Qua4, 20)])
}

/// A mesh of a sphere with its entities
fn sphere_coarse() -> Mesh {
    Mesh {
        entities: Some(EntityCounts {
            points: 2,
            curves: 3,
            surfaces: 1,
            volumes: 1,
        }),
        node_blocks: vec![2, 9, 100, 72],
        first_tag: 1,
        tag_step: 1,
        blocks: vec![
            block(0, ElementType::Pnt, 2),
            block(1, ElementType::Lin2, 10),
            block(2, ElementType::Tri3, 286),
            block(3, ElementType::Tet4, 593),
        ],
    }
}

fn count_of(msh: &MshFile, element_type: ElementType) -> Option<usize> {
    msh.count_element_types().get(&element_type.code()).copied()
}

fn check_counts(msh: &MshFile, nodes: usize, elements: usize, types: &[(ElementType, usize)]) {
    assert_eq!(msh.total_node_count(), nodes);
    assert_eq!(msh.total_element_count(), elements);

    let element_types = msh.count_element_types();
    assert_eq!(element_types.len(), types.len());
    for (element_type, count) in types {
        assert_eq!(element_types.get(&element_type.code()), Some(count));
    }
}

#[test]
fn test_simple_bin_file() {
    let circle_2d_bin = binary_file(&circle_2d(), true);
    assert!(msh_parses(&circle_2d_bin));

    let msh = parse_msh_bytes(&circle_2d_bin).unwrap();
    assert_eq!(msh.total_node_count(), 25);
    assert_eq!(msh.total_element_count(), 20);

    let element_types = msh.count_element_types();
    assert_eq!(element_types.len(), 1);
    assert_eq!(element_types.get(&ElementType::Qua4.code()), Some(&20));
}

#[test]
fn test_simple_ascii_file() {
    let circle_2d = ascii_file(&circle_2d());
    assert!(msh_parses(&circle_2d));

    let msh = parse_msh_bytes(&circle_2d).unwrap();
    assert_eq!(msh.total_node_count(), 25);
    assert_eq!(msh.total_element_count(), 20);

    let element_types = msh.count_element_types();
    assert_eq!(element_types.len(), 1);
    assert_eq!(element_types.get(&ElementType::Qua4.code()), Some(&20));
}

#[test]
fn test_compare_simple_ascii_bin() {
    let circle_2d_bin_raw = binary_file(&circle_2d(), true);
    let circle_2d_raw = ascii_file(&circle_2d());

    let msh_bin = parse_msh_bytes(&circle_2d_bin_raw).unwrap();
    let msh_ascii = parse_msh_bytes(&circle_2d_raw).unwrap();

    // Headers differ, but data should be the same
    assert_eq!(msh_bin.data, msh_ascii.data);
    assert_ne!(msh_bin.header, msh_ascii.header);
}

#[test]
fn test_compare_big_and_little_endian() {
    let little = parse_msh_bytes(&binary_file(&sphere_coarse(), true)).unwrap();
    let big = parse_msh_bytes(&binary_file(&sphere_coarse(), false)).unwrap();
    let ascii = parse_msh_bytes(&ascii_file(&sphere_coarse())).unwrap();

    assert_eq!(little.header.endianness, Some(mshio::Endianness::Little));
    assert_eq!(big.header.endianness, Some(mshio::Endianness::Big));
    assert_eq!(ascii.header.endianness, None);
    assert_eq!(little.data, big.data);
    assert_eq!(little.data, ascii.data);
}

#[test]
fn test_fine_bin_file() {
    let circle_2d_bin = binary_file(
        &simple_mesh(1313, vec![block(2, ElementType::Qua4, 1280)]),
        true,
    );
    assert!(msh_parses(&circle_2d_bin));

    let msh = parse_msh_bytes(&circle_2d_bin).unwrap();
    assert_eq!(msh.total_node_count(), 1313);
    assert_eq!(msh.total_element_count(), 1280);

    let element_types = msh.count_element_types();
    assert_eq!(element_types.len(), 1);
    assert_eq!(element_types.get(&ElementType::Qua4.code()), Some(&1280));
}

#[test]
fn test_t13_bin_file() {
    let msh_bin = binary_file(
        &simple_mesh(
            788,
            vec![
                block(1, ElementType::Lin2, 284),
                block(2, ElementType::Tri3, 1580),
            ],
        ),
        true,
    );
    assert!(msh_parses(&msh_bin));

    let msh = parse_msh_bytes(&msh_bin).unwrap();
    assert_eq!(msh.total_node_count(), 788);
    assert_eq!(msh.total_element_count(), 1864);

    let element_types = msh.count_element_types();
    assert_eq!(element_types.len(), 2);
    assert_eq!(element_types.get(&ElementType::Lin2.code()), Some(&284));
    assert_eq!(element_types.get(&ElementType::Tri3.code()), Some(&1580));
}

#[test]
fn test_cylinder_bin_file() {
    let msh_bin = binary_file(
        &simple_mesh(49602, vec![block(3, ElementType::Tet20, 9792)]),
        true,
    );
    assert!(msh_parses(&msh_bin));

    let msh = parse_msh_bytes(&msh_bin).unwrap();
    assert_eq!(msh.total_node_count(), 49602);
    assert_eq!(msh.total_element_count(), 9792);

    let element_types = msh.count_element_types();
    assert_eq!(element_types.len(), 1);
    assert_eq!(element_types.get(&ElementType::Tet20.code()), Some(&9792));
}

#[test]
fn test_sphere_point_entities_file_ascii() {
    let msh_bin = ascii_file(&sphere_coarse());
    assert!(msh_parses(&msh_bin));

    let msh = parse_msh_bytes(&msh_bin).unwrap();
    assert_eq!(msh.total_node_count(), 183);
    assert_eq!(msh.total_element_count(), 891);

    assert_eq!(msh.point_count(), 2);
    assert_eq!(msh.curve_count(), 3);
    assert_eq!(msh.surface_count(), 1);
    assert_eq!(msh.volume_count(), 1);

    let element_types = msh.count_element_types();
    assert_eq!(element_types.len(), 4);
    assert_eq!(element_types.get(&ElementType::Pnt.code()), Some(&2));
    assert_eq!(element_types.get(&ElementType::Lin2.code()), Some(&10));
    assert_eq!(element_types.get(&ElementType::Tri3.code()), Some(&286));
    assert_eq!(element_types.get(&ElementType::Tet4.code()), Some(&593));
}

#[test]
fn test_sphere_point_entities_file_bin() {
    let msh_bin = binary_file(&sphere_coarse(), true);
    assert!(msh_parses(&msh_bin));

    let msh = parse_msh_bytes(&msh_bin).unwrap();
    assert_eq!(msh.total_node_count(), 183);
    assert_eq!(msh.total_element_count(), 891);

    assert_eq!(msh.point_count(), 2);
    assert_eq!(msh.curve_count(), 3);
    assert_eq!(msh.surface_count(), 1);
    assert_eq!(msh.volume_count(), 1);

    let element_types = msh.count_element_types();
    assert_eq!(element_types.len(), 4);
    assert_eq!(element_types.get(&ElementType::Pnt.code()), Some(&2));
    assert_eq!(element_types.get(&ElementType::Lin2.code()), Some(&10));
    assert_eq!(element_types.get(&ElementType::Tri3.code()), Some(&286));
    assert_eq!(element_types.get(&ElementType::Tet4.code()), Some(&593));
}

#[test]
fn test_comment_section() {
    let msh = "\
$MeshFormat
4.1 0 8
$EndMeshFormat
$Comment
Hello


$EndComment

";
    assert!(msh_parses(msh.as_bytes()));
}

#[test]
fn test_coarse_bike_file() {
    let msh = ascii_file(&simple_mesh(52, vec![block(2, ElementType::Tri3, 54)]));
    assert!(msh_parses(&msh));

    let msh = parse_msh_bytes(&msh).unwrap();
    assert_eq!(msh.total_node_count(), 52);
    assert_eq!(msh.total_element_count(), 54);

    let element_types = msh.count_element_types();
    assert_eq!(element_types.len(), 1);
    assert_eq!(element_types.get(&ElementType::Tri3.code()), Some(&54));
}

#[test]
fn test_fine_bike_file() {
    let msh = ascii_file(&simple_mesh(850, vec![block(2, ElementType::Tri3, 1292)]));
    assert!(msh_parses(&msh));

    let msh = parse_msh_bytes(&msh).unwrap();
    assert_eq!(msh.total_node_count(), 850);
    assert_eq!(msh.total_element_count(), 1292);

    let element_types = msh.count_element_types();
    assert_eq!(element_types.len(), 1);
    assert_eq!(element_types.get(&ElementType::Tri3.code()), Some(&1292));
}

#[test]
fn test_fine_bike_curved_file() {
    let msh = ascii_file(&simple_mesh(
        2698,
        vec![
            block(2, ElementType::Tri3, 1028),
            block(2, ElementType::Tri10, 264),
        ],
    ));
    assert!(msh_parses(&msh));

    let msh = parse_msh_bytes(&msh).unwrap();
    assert_eq!(msh.total_node_count(), 2698);
    assert_eq!(msh.total_element_count(), 1292);

    let element_types = msh.count_element_types();
    assert_eq!(element_types.len(), 2);
    assert_eq!(element_types.get(&ElementType::Tri3.code()), Some(&1028));
    assert_eq!(element_types.get(&ElementType::Tri10.code()), Some(&264));
}

#[test]
fn test_counts_are_sums_of_block_lengths() {
    let msh = parse_msh_bytes(&ascii_file(&sphere_coarse())).unwrap();
    let nodes = msh.data.nodes.as_ref().unwrap();
    let elements = msh.data.elements.as_ref().unwrap();

    let node_sum: usize = nodes.node_blocks.iter().map(|b| b.nodes.len()).sum();
    let element_sum: usize = elements.element_blocks.iter().map(|b| b.elements.len()).sum();
    assert_eq!(msh.total_node_count(), node_sum);
    assert_eq!(msh.total_node_count() as u64, nodes.num_nodes);
    assert_eq!(msh.total_element_count(), element_sum);
    check_counts(
        &msh,
        183,
        891,
        &[
            (ElementType::Pnt, 2),
            (ElementType::Lin2, 10),
            (ElementType::Tri3, 286),
            (ElementType::Tet4, 593),
        ],
    );
    assert_eq!(count_of(&msh, ElementType::Hex8), None);
}

#[test]
fn test_parsed_values() {
    let msh = parse_msh_bytes(&binary_file(&sphere_coarse(), false)).unwrap();

    assert_eq!(f64::from_bits(msh.header.version), 4.1);
    assert_eq!(msh.header.file_type, 1);
    assert_eq!(msh.header.size_t_size, 8);
    assert_eq!(msh.header.int_size, 4);
    assert_eq!(msh.header.float_size, 8);

    let entities = msh.data.entities.as_ref().unwrap();
    let point = &entities.points[1];
    assert_eq!(point.tag, 2);
    assert_eq!(f64::from_bits(point.x), 0.5);
    assert_eq!(f64::from_bits(point.y), 0.75);
    assert_eq!(f64::from_bits(point.z), 0.125);
    assert_eq!(point.physical_tags, vec![7]);
    let curve = &entities.curves[2];
    assert_eq!(curve.tag, 3);
    assert_eq!(f64::from_bits(curve.min_x), -2.5);
    assert_eq!(f64::from_bits(curve.min_y), -1.5);
    assert_eq!(f64::from_bits(curve.min_z), -0.5);
    assert_eq!(f64::from_bits(curve.max_x), 0.5);
    assert_eq!(f64::from_bits(curve.max_y), 1.5);
    assert_eq!(f64::from_bits(curve.max_z), 2.5);
    assert!(curve.physical_tags.is_empty());
    assert_eq!(curve.point_tags, vec![1, -2]);
    assert_eq!(entities.surfaces[0].curve_tags, vec![1, -2]);
    assert_eq!(entities.volumes[0].surface_tags, vec![1, -2]);

    let nodes = msh.data.nodes.as_ref().unwrap();
    assert_eq!(nodes.num_nodes, 183);
    assert_eq!(nodes.min_node_tag, 1);
    assert_eq!(nodes.max_node_tag, 183);
    assert_eq!(nodes.node_blocks.len(), 4);
    let node_block = &nodes.node_blocks[1];
    assert_eq!(node_block.entity_dim, 2);
    assert_eq!(node_block.entity_tag, 2);
    assert!(!node_block.parametric);
    assert!(node_block.parametric_nodes.is_none());
    assert_eq!(node_block.nodes.len(), 9);
    let (x, y, z) = coordinates(2 + 3);
    assert_eq!(f64::from_bits(node_block.nodes[3].x), x);
    assert_eq!(f64::from_bits(node_block.nodes[3].y), y);
    assert_eq!(f64::from_bits(node_block.nodes[3].z), z);

    let elements = msh.data.elements.as_ref().unwrap();
    assert_eq!(elements.num_elements, 891);
    assert_eq!(elements.min_element_tag, 1);
    assert_eq!(elements.max_element_tag, 891);
    let element_block = &elements.element_blocks[2];
    assert_eq!(element_block.entity_dim, 2);
    assert_eq!(element_block.element_type, ElementType::Tri3);
    assert_eq!(element_block.elements[0].element_tag, 13);
    assert_eq!(element_block.elements[0].nodes, vec![14, 15, 16]);
}

#[test]
fn test_dense_tags_have_no_tag_maps() {
    let msh = parse_msh_bytes(&ascii_file(&sphere_coarse())).unwrap();
    for node_block in msh.data.nodes.as_ref().unwrap().node_blocks.iter() {
        assert!(node_block.node_tags.is_none());
    }
    for element_block in msh.data.elements.as_ref().unwrap().element_blocks.iter() {
        assert!(element_block.element_tags.is_none());
    }
}

#[test]
fn test_sparse_tags_have_tag_maps() {
    let mesh = Mesh {
        entities: None,
        node_blocks: vec![3, 4],
        first_tag: 10,
        tag_step: 5,
        blocks: vec![block(1, ElementType::Lin2, 2)],
    };
    for file in [ascii_file(&mesh), binary_file(&mesh, true), binary_file(&mesh, false)] {
        let msh = parse_msh_bytes(&file).unwrap();
        let nodes = msh.data.nodes.as_ref().unwrap();
        // max_tag - min_tag = 30 > 7 - 1
        assert_eq!(nodes.min_node_tag, 10);
        assert_eq!(nodes.max_node_tag, 40);
        let first = nodes.node_blocks[0].node_tags.as_ref().unwrap();
        assert_eq!(first.len(), 3);
        assert_eq!(first.get(&10), Some(&0));
        assert_eq!(first.get(&15), Some(&1));
        assert_eq!(first.get(&20), Some(&2));
        let second = nodes.node_blocks[1].node_tags.as_ref().unwrap();
        assert_eq!(second.len(), 4);
        assert_eq!(second.get(&25), Some(&0));
        assert_eq!(second.get(&40), Some(&3));
        // The element tags 1 and 2 are dense
        assert!(msh.data.elements.as_ref().unwrap().element_blocks[0]
            .element_tags
            .is_none());
    }
}

#[test]
fn test_sparse_element_tags_have_tag_maps() {
    let msh = "\
$MeshFormat
4.1 0 8
$EndMeshFormat
$Elements
1 2 3 9
1 1 1 2
3 1 2
9 2 3
$EndElements
";
    let msh = parse_msh_bytes(msh.as_bytes()).unwrap();
    let element_block = &msh.data.elements.as_ref().unwrap().element_blocks[0];
    let tags = element_block.element_tags.as_ref().unwrap();
    assert_eq!(tags.len(), 2);
    assert_eq!(tags.get(&3), Some(&0));
    assert_eq!(tags.get(&9), Some(&1));
    assert_eq!(msh.total_node_count(), 0);
    assert_eq!(msh.total_element_count(), 2);
}

#[test]
fn test_sparsity_boundary() {
    // max_tag - min_tag == count - 1: dense
    let dense = "$MeshFormat\n4.1 0 8\n$EndMeshFormat\n$Nodes\n1 2 5 6\n2 1 0 2\n5\n6\n0 0 0\n1 1 1\n$EndNodes\n";
    let msh = parse_msh_bytes(dense.as_bytes()).unwrap();
    assert!(msh.data.nodes.unwrap().node_blocks[0].node_tags.is_none());
    // max_tag - min_tag == count: sparse
    let sparse = "$MeshFormat\n4.1 0 8\n$EndMeshFormat\n$Nodes\n1 2 5 7\n2 1 0 2\n5\n7\n0 0 0\n1 1 1\n$EndNodes\n";
    let msh = parse_msh_bytes(sparse.as_bytes()).unwrap();
    assert!(msh.data.nodes.unwrap().node_blocks[0].node_tags.is_some());
}

#[test]
fn test_unknown_sections_are_skipped() {
    let msh = "\
$MeshFormat
4.1 0 8
$EndMeshFormat
$Foo
some content $EndFo that is not understood
$EndFoo
$Nodes
1 1 1 1
2 1 0 1
1
0.5 -1.5e1 2
$EndNodes
$PhysicalNames
1
2 1 \"surface\"
$EndPhysicalNames
";
    let msh = parse_msh_bytes(msh.as_bytes()).unwrap();
    assert!(msh.data.entities.is_none());
    assert!(msh.data.elements.is_none());
    let nodes = msh.data.nodes.unwrap();
    assert_eq!(nodes.node_blocks[0].nodes.len(), 1);
    assert_eq!(f64::from_bits(nodes.node_blocks[0].nodes[0].x), 0.5);
    assert_eq!(f64::from_bits(nodes.node_blocks[0].nodes[0].y), -15.0);
    assert_eq!(f64::from_bits(nodes.node_blocks[0].nodes[0].z), 2.0);
}

#[test]
fn test_header_only_file() {
    let msh = parse_msh_bytes(b"$MeshFormat\r\n4.1 0 8\r\n$EndMeshFormat\r\n").unwrap();
    assert_eq!(msh.header.file_type, 0);
    assert_eq!(msh.header.size_t_size, 8);
    assert_eq!(msh.header.endianness, None);
    assert!(msh.data.entities.is_none());
    assert!(msh.data.nodes.is_none());
    assert!(msh.data.elements.is_none());
    assert_eq!(msh.total_node_count(), 0);
    assert_eq!(msh.total_element_count(), 0);
    assert_eq!(msh.count_element_types().len(), 0);
    assert_eq!(msh.point_count(), 0);
}

#[test]
fn test_size_t_of_four_bytes() {
    let mut msh = Vec::new();
    msh.extend_from_slice(b"$MeshFormat\n4.1 1 4\n");
    msh.extend_from_slice(&1i32.to_be_bytes());
    msh.extend_from_slice(b"\n$EndMeshFormat\n$Elements\n");
    for v in [1u32, 1, 7, 7] {
        msh.extend_from_slice(&v.to_be_bytes());
    }
    for v in [0i32, 5, 15] {
        msh.extend_from_slice(&v.to_be_bytes());
    }
    for v in [1u32, 7, 42] {
        msh.extend_from_slice(&v.to_be_bytes());
    }
    msh.extend_from_slice(b"\n$EndElements\n");
    let msh = parse_msh_bytes(&msh).unwrap();
    assert_eq!(msh.header.size_t_size, 4);
    let elements = msh.data.elements.unwrap();
    assert_eq!(elements.element_blocks[0].entity_tag, 5);
    assert_eq!(elements.element_blocks[0].element_type, ElementType::Pnt);
    assert_eq!(elements.element_blocks[0].elements[0].element_tag, 7);
    assert_eq!(elements.element_blocks[0].elements[0].nodes, vec![42]);
}

#[test]
fn test_declared_counts_are_checked_against_the_blocks() {
    let msh = parse_msh_bytes(&ascii_file(&sphere_coarse())).unwrap();
    assert!(msh.node_count_is_valid());
    assert!(msh.element_count_is_valid());

    // A file that declares more nodes and elements than its blocks hold
    let msh = "\
$MeshFormat
4.1 0 8
$EndMeshFormat
$Nodes
1 5 1 5
2 1 0 2
1
2
0 0 0
1 1 1
$EndNodes
$Elements
1 3 1 3
1 1 1 1
1 1 2
$EndElements
";
    let msh = parse_msh_bytes(msh.as_bytes()).unwrap();
    assert_eq!(msh.total_node_count(), 5);
    assert_eq!(msh.total_element_count(), 3);
    assert!(!msh.node_count_is_valid());
    assert!(!msh.element_count_is_valid());
    assert_eq!(count_of(&msh, ElementType::Lin2), Some(1));

    let msh = parse_msh_bytes(b"$MeshFormat\n4.1 0 8\n$EndMeshFormat\n").unwrap();
    assert!(msh.node_count_is_valid());
    assert!(msh.element_count_is_valid());
}
