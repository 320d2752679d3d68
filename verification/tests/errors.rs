use mshio::error::{MshParserErrorKind, TokenErrorKind};
use mshio::{parse_msh_bytes, MshParserError};

/// Returns whether the supplied data can be parsed successfully as a MSH file
fn msh_parses(msh: &[u8]) -> bool {
    match parse_msh_bytes(msh) {
        Ok(_) => true,
        Err(err) => {
            print_error_report(&err, msh);
            false
        }
    }
}

fn print_error_report(error: &MshParserError, input: &[u8]) {
    println!("Test error:\n{}", error.report(input));
    println!("Error debug: {:?}", error);
}

/// Parses the mesh, expects a failure and returns the error
fn parse_error(msh: &str) -> MshParserError {
    let parsed_msh = parse_msh_bytes(msh.as_bytes());
    assert!(
        parsed_msh.is_err(),
        "parsing the mesh is expected to result in an error"
    );
    let error = parsed_msh.unwrap_err();
    print_error_report(&error, msh.as_bytes());
    error
}

/// The bytes of a binary file of an old version of the format
fn old_msh_version_file() -> Vec<u8> {
    let mut msh = Vec::new();
    msh.extend_from_slice(b"$MeshFormat\n2.2 1 8\n");
    msh.extend_from_slice(&1i32.to_le_bytes());
    msh.extend_from_slice(b"\n$EndMeshFormat\n$Nodes\n1\n");
    msh.extend_from_slice(&1i32.to_le_bytes());
    msh.extend_from_slice(&0.0f64.to_le_bytes());
    msh.extend_from_slice(&0.0f64.to_le_bytes());
    msh.extend_from_slice(&0.0f64.to_le_bytes());
    msh.extend_from_slice(b"\n$EndNodes\n");
    msh
}

#[test]
fn test_unsupported_msh_version_ascii() {
    let error = parse_error(
        "\
$MeshFormat
27.1 0 8
$EndMeshFormat

",
    );
    assert_eq!(
        error.first_msh_error(),
        Some(MshParserErrorKind::UnsupportedMshVersion)
    );
    // The version guard fails at the start of the header content.
    assert_eq!(
        error.backtrace[0],
        (12, MshParserErrorKind::UnsupportedMshVersion)
    );
}

#[test]
fn test_old_msh_version_bin() {
    let msh = old_msh_version_file();
    assert!(!msh_parses(&msh));
}

#[test]
fn test_old_msh_version_bin_error() {
    let msh = old_msh_version_file();
    let error = parse_msh_bytes(&msh).unwrap_err();
    assert_eq!(
        error.first_msh_error(),
        Some(MshParserErrorKind::UnsupportedMshVersion)
    );
}

#[test]
fn test_invalid_section() {
    let error = parse_error(
        "\
$MeshFormat
4.1 0 8
$EndMeshFormat
$Comment
$EndComment
Hello

",
    );
    assert_eq!(
        error.first_msh_error(),
        Some(MshParserErrorKind::InvalidSectionHeader)
    );
}

#[test]
fn test_invalid_element_type() {
    let error = parse_error(
        "\
$MeshFormat
4.1 0 8
$EndMeshFormat
$Elements
1 20 1 20
2 0 788 20
$EndElements\
",
    );
    assert_eq!(
        error.first_msh_error(),
        Some(MshParserErrorKind::UnknownElement)
    );
    assert!(error
        .backtrace
        .iter()
        .any(|(_, kind)| kind.context() == Some("value 788")));
}

#[test]
fn test_unknown_element_type_141() {
    let error = parse_error(
        "\
$MeshFormat
4.1 0 8
$EndMeshFormat
$Elements
1 1 1 1
2 0 141 1
1 1 2 3
$EndElements
",
    );
    assert_eq!(
        error.first_msh_error(),
        Some(MshParserErrorKind::UnknownElement)
    );
    assert!(error
        .backtrace
        .iter()
        .any(|(_, kind)| match kind.context() {
            Some(text) => text.contains("141"),
            None => false,
        }));
}

#[test]
fn test_wrong_element_amount() {
    let error = parse_error(
        "\
$MeshFormat
4.1 0 8
$EndMeshFormat
$Entities
0 0 1 0
0 -1 -1 0 1 1 0 0 0
$EndEntities
$Elements
1 20 1 20
2 0 3 20
1 1 9 13 12
$EndElements\
",
    );
    assert_eq!(
        error.first_msh_error(),
        Some(MshParserErrorKind::InvalidElementDefinition)
    );
}

#[test]
fn test_wrong_entity_amount() {
    let error = parse_error(
        "\
$MeshFormat
4.1 0 8
$EndMeshFormat
$Entities
0 0 2 0
0 -1 -1 0 1 1 0 0 0
$EndEntities\
",
    );
    assert_eq!(error.first_msh_error(), Some(MshParserErrorKind::InvalidTag));
}

#[test]
fn test_wrong_bounding_tag_amount() {
    let error = parse_error(
        "\
$MeshFormat
4.1 0 8
$EndMeshFormat
$Entities
0 0 1 0
0 -1 -1 0 1 1 0 0 2
$EndEntities\
",
    );
    assert_eq!(error.first_msh_error(), Some(MshParserErrorKind::InvalidTag));
}

#[test]
fn test_min_tag_zero_is_invalid() {
    let error = parse_error("$MeshFormat\n4.1 0 8\n$EndMeshFormat\n$Nodes\n1 1 0 1\n2 1 0 1\n1\n0 0 0\n$EndNodes\n");
    assert_eq!(error.first_msh_error(), Some(MshParserErrorKind::InvalidTag));
    let error = parse_error("$MeshFormat\n4.1 0 8\n$EndMeshFormat\n$Elements\n1 1 0 1\n2 1 15 1\n1 1\n$EndElements\n");
    assert_eq!(error.first_msh_error(), Some(MshParserErrorKind::InvalidTag));
}

#[test]
fn test_max_tag_below_min_tag_is_invalid() {
    let error = parse_error("$MeshFormat\n4.1 0 8\n$EndMeshFormat\n$Nodes\n1 1 5 4\n2 1 0 1\n5\n0 0 0\n$EndNodes\n");
    assert_eq!(error.first_msh_error(), Some(MshParserErrorKind::InvalidTag));
    let error = parse_error("$MeshFormat\n4.1 0 8\n$EndMeshFormat\n$Elements\n1 1 5 4\n2 1 15 1\n5 1\n$EndElements\n");
    assert_eq!(error.first_msh_error(), Some(MshParserErrorKind::InvalidTag));
}

#[test]
fn test_invalid_file_type() {
    let error = parse_error("$MeshFormat\n4.1 2 8\n$EndMeshFormat\n");
    assert_eq!(
        error.first_msh_error(),
        Some(MshParserErrorKind::InvalidFileHeader)
    );
}

#[test]
fn test_undetectable_endianness() {
    let mut msh = Vec::new();
    msh.extend_from_slice(b"$MeshFormat\n4.1 1 8\n");
    msh.extend_from_slice(&2i32.to_le_bytes());
    msh.extend_from_slice(b"\n$EndMeshFormat\n");
    let error = parse_msh_bytes(&msh).unwrap_err();
    assert_eq!(
        error.first_msh_error(),
        Some(MshParserErrorKind::InvalidFileHeader)
    );
}

#[test]
fn test_unsupported_type_size() {
    let mut msh = Vec::new();
    msh.extend_from_slice(b"$MeshFormat\n4.1 1 3\n");
    msh.extend_from_slice(&1i32.to_le_bytes());
    msh.extend_from_slice(b"\n$EndMeshFormat\n");
    let error = parse_msh_bytes(&msh).unwrap_err();
    assert_eq!(
        error.first_msh_error(),
        Some(MshParserErrorKind::UnsupportedTypeSize(
            mshio::error::ValueType::UnsignedInt,
            3
        ))
    );
}

#[test]
fn test_parametric_nodes_are_unimplemented() {
    let error = parse_error("$MeshFormat\n4.1 0 8\n$EndMeshFormat\n$Nodes\n1 1 1 1\n2 1 1 1\n1\n0 0 0\n$EndNodes\n");
    assert_eq!(
        error.first_msh_error(),
        Some(MshParserErrorKind::Unimplemented)
    );
}

#[test]
fn test_invalid_parametric_flag() {
    let error = parse_error("$MeshFormat\n4.1 0 8\n$EndMeshFormat\n$Nodes\n1 1 1 1\n2 1 7 1\n1\n0 0 0\n$EndNodes\n");
    assert_eq!(
        error.first_msh_error(),
        Some(MshParserErrorKind::InvalidParameter)
    );
}

#[test]
fn test_invalid_node_definition() {
    let error = parse_error("$MeshFormat\n4.1 0 8\n$EndMeshFormat\n$Nodes\n1 1 1 1\n2 1 0 1\n1\n0 0\n$EndNodes\n");
    // The coordinate that is missing is named before the node definition is rejected.
    assert_eq!(
        error.first_msh_error(),
        Some(MshParserErrorKind::Context("z coordinate".to_string()))
    );
    assert_eq!(
        error.backtrace[2],
        (60, MshParserErrorKind::InvalidNodeDefinition)
    );
}

#[test]
fn test_element_type_without_node_count_is_unimplemented() {
    let error = parse_error("$MeshFormat\n4.1 0 8\n$EndMeshFormat\n$Elements\n1 1 1 1\n2 1 34 1\n1 1 2 3\n$EndElements\n");
    assert_eq!(
        error.first_msh_error(),
        Some(MshParserErrorKind::Unimplemented)
    );
}

#[test]
fn test_multiple_node_sections_are_unimplemented() {
    let section = "$Nodes\n1 1 1 1\n2 1 0 1\n1\n0 0 0\n$EndNodes\n";
    let msh = format!("$MeshFormat\n4.1 0 8\n$EndMeshFormat\n{}{}", section, section);
    let error = parse_error(&msh);
    assert_eq!(
        error.first_msh_error(),
        Some(MshParserErrorKind::Unimplemented)
    );
    assert_eq!(error.backtrace[0].0, msh.len());
}

#[test]
fn test_value_out_of_range() {
    // A size_t value of 16 bytes that does not fit into 64 bits
    let mut msh = Vec::new();
    msh.extend_from_slice(b"$MeshFormat\n4.1 1 16\n");
    msh.extend_from_slice(&1i32.to_le_bytes());
    msh.extend_from_slice(b"\n$EndMeshFormat\n$Nodes\n");
    msh.extend_from_slice(&(u128::MAX).to_le_bytes());
    msh.extend_from_slice(b"\n$EndNodes\n");
    let error = parse_msh_bytes(&msh).unwrap_err();
    assert_eq!(
        error.first_msh_error(),
        Some(MshParserErrorKind::ValueOutOfRange(
            mshio::error::ValueType::UnsignedInt
        ))
    );
}

#[test]
fn test_missing_header_is_a_tokenizer_error() {
    let error = parse_msh_bytes(b"$Nodes\n$EndNodes\n").unwrap_err();
    assert_eq!(
        error.backtrace[0],
        (0, MshParserErrorKind::NomError(TokenErrorKind::Tag))
    );
    assert_eq!(
        error.first_msh_error(),
        Some(MshParserErrorKind::Context(
            "MSH file header section".to_string()
        ))
    );
}

fn contexts(error: &MshParserError) -> Vec<String> {
    error
        .backtrace
        .iter()
        .filter_map(|(_, kind)| kind.context().map(|c| c.to_string()))
        .collect()
}

#[test]
fn test_labels_of_the_bounding_box() {
    let head = "$MeshFormat\n4.1 0 8\n$EndMeshFormat\n$Entities\n0 1 0 0\n";
    let expected = [
        "min x-coordinate",
        "min y-coordinate",
        "min z-coordinate",
        "max x-coordinate",
        "max y-coordinate",
        "max z-coordinate",
    ];
    for (given, label) in expected.iter().enumerate() {
        let mut msh = String::from(head);
        msh.push_str("1");
        for _ in 0..given {
            msh.push_str(" 0.5");
        }
        msh.push_str(" x\n$EndEntities\n");
        let error = parse_msh_bytes(msh.as_bytes()).unwrap_err();
        assert_eq!(
            error.first_msh_error(),
            Some(MshParserErrorKind::Context(label.to_string()))
        );
        assert!(contexts(&error).contains(&"curve entity (1 of 1)".to_string()));
        assert!(contexts(&error).contains(&"entity section: curves".to_string()));
    }
}

#[test]
fn test_labels_of_the_node_section() {
    let error = parse_error("$MeshFormat\n4.1 0 8\n$EndMeshFormat\n$Nodes\n1 x\n$EndNodes\n");
    assert_eq!(
        contexts(&error),
        vec!["total number of nodes", "node section header", "node section"]
    );
    let error = parse_error("$MeshFormat\n4.1 0 8\n$EndMeshFormat\n$Nodes\n1 1 1 1\n2 1 0 x\n$EndNodes\n");
    assert_eq!(
        contexts(&error),
        vec![
            "number of nodes in node block",
            "node entity block (1 of 1)",
            "node section"
        ]
    );
    let error = parse_error("$MeshFormat\n4.1 0 8\n$EndMeshFormat\n$Elements\n1 x\n$EndElements\n");
    assert_eq!(
        contexts(&error),
        vec![
            "total number of elements",
            "element section header",
            "element section"
        ]
    );
    let error = parse_error("$MeshFormat\n4.1 0 8\n$EndMeshFormat\n$Elements\n1 1 1 1\n2 1 3 x\n$EndElements\n");
    assert_eq!(
        contexts(&error),
        vec![
            "number of elements in element block",
            "element entity block (1 of 1)",
            "element section"
        ]
    );
}

#[test]
fn test_parametric_flag_before_an_unreadable_count() {
    // The count behind the flag is read first: its failure comes before the flag is judged
    let error = parse_error("$MeshFormat\n4.1 0 8\n$EndMeshFormat\n$Nodes\n1 1 1 1\n2 1 1 x\n$EndNodes\n");
    assert_eq!(
        error.backtrace[0],
        (56, MshParserErrorKind::NomError(TokenErrorKind::Digit))
    );
    assert_eq!(
        error.first_msh_error(),
        Some(MshParserErrorKind::Context(
            "number of nodes in node block".to_string()
        ))
    );
}
