use mshio::error::{
    make_error, with_context, with_error, MshParserError, MshParserErrorKind, TokenErrorKind,
    ValueType,
};
use mshio::mshfile::ElementType;
use mshio::parse_msh_bytes;
use mshio::text::{decimal_string, expected_label, joined, numbered_label, with_number};

#[test]
fn test_element_type_from_code() {
    assert_eq!(ElementType::from_i32(4).unwrap(), ElementType::Tet4);
    assert!(ElementType::from_i32(0).is_none());
    assert!(ElementType::from_i32(141).is_none());
    assert!(ElementType::from_i32(-1).is_none());
    assert_eq!(ElementType::from_i32(1), Some(ElementType::Lin2));
    assert_eq!(ElementType::from_i32(3), Some(ElementType::Qua4));
    assert_eq!(ElementType::from_i32(140), Some(ElementType::Trih4));
    // The codes 76 to 78 stand for no element type
    assert!(ElementType::from_i32(76).is_none());
    assert!(ElementType::from_i32(77).is_none());
    assert!(ElementType::from_i32(78).is_none());
    assert_eq!(ElementType::from_i32(75), Some(ElementType::Tet286));
    assert_eq!(ElementType::from_i32(79), Some(ElementType::Tet34));
}

#[test]
fn test_element_type_code_round_trip() {
    let mut known = 0;
    for code in -5..200 {
        if let Some(element_type) = ElementType::from_i32(code) {
            assert_eq!(element_type.code(), code);
            assert!(1 <= code && code <= 140);
            known += 1;
        }
    }
    assert_eq!(known, 137);
}

#[test]
fn test_element_type_nodes() {
    assert_eq!(ElementType::Lin2.nodes(), Ok(2));
    assert_eq!(ElementType::Tri3.nodes(), Ok(3));
    assert_eq!(ElementType::Qua4.nodes(), Ok(4));
    assert_eq!(ElementType::Tet4.nodes(), Ok(4));
    assert_eq!(ElementType::Hex8.nodes(), Ok(8));
    assert_eq!(ElementType::Pnt.nodes(), Ok(1));
    assert_eq!(ElementType::Tet20.nodes(), Ok(20));
    assert_eq!(ElementType::Tri10.nodes(), Ok(10));
    assert_eq!(ElementType::Hex1000.nodes(), Ok(1000));
    assert_eq!(ElementType::Polyg.nodes(), Err(()));
    assert_eq!(ElementType::Polyh.nodes(), Err(()));
    assert_eq!(ElementType::LinB.nodes(), Err(()));
    assert_eq!(ElementType::Trih4.nodes(), Err(()));
    let without_count = (1..=140)
        .filter_map(ElementType::from_i32)
        .filter(|t| t.nodes().is_err())
        .count();
    assert_eq!(without_count, 13);
}

#[test]
fn test_prism_of_18_nodes() {
    assert_eq!(ElementType::from_i32(13), Some(ElementType::Pri18));
    assert_eq!(ElementType::Pri18.nodes(), Ok(18));

    // A block of one prism: its tag and 18 node tags
    let mut msh = String::from("$MeshFormat\n4.1 0 8\n$EndMeshFormat\n$Elements\n1 1 1 1\n3 1 13 1\n1");
    for node in 1..=18 {
        msh.push_str(&format!(" {}", node));
    }
    msh.push_str("\n$EndElements\n");
    let file = parse_msh_bytes(msh.as_bytes()).unwrap();
    let block = &file.data.elements.as_ref().unwrap().element_blocks[0];
    assert_eq!(block.element_type, ElementType::Pri18);
    assert_eq!(block.elements.len(), 1);
    assert_eq!(block.elements[0].element_tag, 1);
    assert_eq!(block.elements[0].nodes, (1..=18).collect::<Vec<u64>>());
}

#[test]
fn test_numbered_element_types_have_that_many_nodes() {
    let mut numbered = 0;
    for element_type in (1..=140).filter_map(ElementType::from_i32) {
        let name = format!("{:?}", element_type);
        let name = name.strip_suffix('i').unwrap_or(&name);
        let digits: String = name.chars().filter(|c| c.is_ascii_digit()).collect();
        if element_type == ElementType::Trih4 {
            // A kind without a fixed number of nodes
            assert_eq!(element_type.nodes(), Err(()));
        } else if digits.is_empty() {
            assert!(element_type.nodes().is_err() || element_type == ElementType::Pnt);
        } else {
            assert_eq!(element_type.nodes(), Ok(digits.parse::<usize>().unwrap()));
            numbered += 1;
        }
    }
    assert_eq!(ElementType::Pnt.nodes(), Ok(1));
    assert_eq!(numbered, 123);
}

#[test]
fn test_decimal_text() {
    assert_eq!(decimal_string(0), "0");
    assert_eq!(decimal_string(7), "7");
    assert_eq!(decimal_string(10), "10");
    assert_eq!(decimal_string(1905), "1905");
    assert_eq!(decimal_string(u64::MAX as u128), "18446744073709551615");
    assert_eq!(
        decimal_string(u128::MAX),
        "340282366920938463463374607431768211455"
    );
    assert_eq!(with_number("value ", 141), "value 141");
    assert_eq!(with_number("value ", -7), "value -7");
    assert_eq!(with_number("", 0), "0");
    assert_eq!(
        with_number("value ", i64::MIN),
        "value -9223372036854775808"
    );
    assert_eq!(
        numbered_label("node entity block", 2, 10),
        "node entity block (2 of 10)"
    );
    assert_eq!(
        expected_label(3, "physical tags"),
        "Expected 3 valid physical tags"
    );
    assert_eq!(joined("point", " entity"), "point entity");
}

#[test]
fn test_error_messages() {
    assert_eq!(
        MshParserErrorKind::UnsupportedMshVersion.message(),
        "MSH file of unsupported format version loaded. Only the MSH file format specification of revision 4.1 is supported."
    );
    assert_eq!(
        MshParserErrorKind::UnsupportedTypeSize(ValueType::UnsignedInt, 3).message(),
        "There is no parser available to parse binary unsigned integer values with a size of 3."
    );
    assert_eq!(
        MshParserErrorKind::UnsupportedTypeSize(ValueType::Float, 16).message(),
        "There is no parser available to parse binary floating point values with a size of 16."
    );
    assert_eq!(
        MshParserErrorKind::InvalidFileHeader.message(),
        "The MSH file header is not valid."
    );
    assert_eq!(
        MshParserErrorKind::InvalidSectionHeader.message(),
        "Unexpected tokens found after file header. Expected a section according to the MSH file format specification."
    );
    assert_eq!(
        MshParserErrorKind::UnknownElement.message(),
        "An unknown element type was encountered in the MSH file."
    );
    assert_eq!(
        MshParserErrorKind::TooManyEntities.message(),
        "There are too many entities to parse them into contiguous memory on the current system (usize type too small)."
    );
    assert_eq!(
        MshParserErrorKind::ValueOutOfRange(ValueType::Int).message(),
        "A integer value could not be parsed because it was out of range of the target data type."
    );
    assert_eq!(
        MshParserErrorKind::InvalidTag.message(),
        "An invalid entity tag value was encountered, e.g. the internally reserved value of 0, or a max_tag that is smaller than a min_tag"
    );
    assert_eq!(
        MshParserErrorKind::InvalidParameter.message(),
        "An invalid parameter value was encountered."
    );
    assert_eq!(
        MshParserErrorKind::InvalidElementDefinition.message(),
        "An invalid element definition was encountered."
    );
    assert_eq!(
        MshParserErrorKind::InvalidNodeDefinition.message(),
        "An invalid node definition was encountered."
    );
    assert_eq!(
        MshParserErrorKind::Unimplemented.message(),
        "An unimplemented feature was detected."
    );
    assert_eq!(
        MshParserErrorKind::Context("node section".to_string()).message(),
        "node section"
    );
    assert_eq!(
        MshParserErrorKind::NomError(TokenErrorKind::Digit).message(),
        "Digit"
    );
    assert_eq!(ValueType::UnsignedInt.name(), "unsigned integer");
    assert_eq!(ValueType::Int.name(), "integer");
    assert_eq!(ValueType::Float.name(), "floating point");
    for (kind, name) in [
        (TokenErrorKind::Tag, "Tag"),
        (TokenErrorKind::Alt, "Alt"),
        (TokenErrorKind::Digit, "Digit"),
        (TokenErrorKind::Eof, "Eof"),
        (TokenErrorKind::Float, "Float"),
        (TokenErrorKind::Count, "Count"),
        (TokenErrorKind::ParseTo, "ParseTo"),
    ] {
        assert_eq!(kind.name(), name);
    }
}

#[test]
fn test_error_kind_queries() {
    let token = MshParserErrorKind::NomError(TokenErrorKind::Tag);
    let context = MshParserErrorKind::Context("entity tag".to_string());
    assert!(token.is_nom_error());
    assert!(!context.is_nom_error());
    assert!(!MshParserErrorKind::InvalidTag.is_nom_error());
    assert_eq!(context.context(), Some("entity tag"));
    assert_eq!(token.context(), None);
    assert_eq!(MshParserErrorKind::InvalidTag.context(), None);
    assert_eq!(context.duplicate(), context);
    assert_eq!(
        MshParserErrorKind::UnsupportedTypeSize(ValueType::Int, 3).duplicate(),
        MshParserErrorKind::UnsupportedTypeSize(ValueType::Int, 3)
    );
    assert_eq!(
        MshParserErrorKind::InvalidTag.into_error(5).backtrace,
        vec![(5, MshParserErrorKind::InvalidTag)]
    );
}

fn sample_error() -> MshParserError {
    MshParserError::from_error_kind(9, MshParserErrorKind::NomError(TokenErrorKind::Digit))
        .with_append(9, MshParserErrorKind::NomError(TokenErrorKind::Alt))
        .with_append(9, MshParserErrorKind::InvalidTag)
        .with_context(9, "entity tag")
        .with_append(4, MshParserErrorKind::NomError(TokenErrorKind::Count))
        .with_context(4, "entity section")
}

#[test]
fn test_backtrace_queries() {
    let error = sample_error();
    assert_eq!(error.backtrace.len(), 6);
    assert_eq!(error.first_msh_error(), Some(MshParserErrorKind::InvalidTag));
    assert_eq!(
        error.begin_msh_errors(),
        vec![
            (9, MshParserErrorKind::InvalidTag),
            (9, MshParserErrorKind::Context("entity tag".to_string())),
            (4, MshParserErrorKind::NomError(TokenErrorKind::Count)),
            (4, MshParserErrorKind::Context("entity section".to_string())),
        ]
    );
    let filtered = vec![
        (9, MshParserErrorKind::InvalidTag),
        (9, MshParserErrorKind::Context("entity tag".to_string())),
        (4, MshParserErrorKind::Context("entity section".to_string())),
    ];
    assert_eq!(error.filter_msh_errors(), filtered);
    assert_eq!(error.filtered_backtrace(), filtered);

    let tokens_only = make_error(1, MshParserErrorKind::NomError(TokenErrorKind::Eof));
    assert_eq!(tokens_only.first_msh_error(), None);
    assert!(tokens_only.begin_msh_errors().is_empty());
    assert!(tokens_only.filtered_backtrace().is_empty());
    assert!(MshParserError::new().backtrace.is_empty());
    assert_eq!(MshParserError::new().first_msh_error(), None);
}

#[test]
fn test_result_combinators() {
    let ok: Result<u8, MshParserError> = Ok(3);
    assert_eq!(with_error(ok, 1, MshParserErrorKind::InvalidTag), Ok(3));
    let ok: Result<u8, MshParserError> = Ok(3);
    assert_eq!(with_context(ok, 1, "label"), Ok(3));
    let failed: Result<u8, MshParserError> =
        Err(make_error(2, MshParserErrorKind::NomError(TokenErrorKind::Eof)));
    let failed = with_context(with_error(failed, 1, MshParserErrorKind::InvalidTag), 0, "label");
    assert_eq!(
        failed.unwrap_err().backtrace,
        vec![
            (2, MshParserErrorKind::NomError(TokenErrorKind::Eof)),
            (1, MshParserErrorKind::InvalidTag),
            (0, MshParserErrorKind::Context("label".to_string())),
        ]
    );
}

#[test]
fn test_report() {
    let error = sample_error();
    assert_eq!(
        error.report_with_dump("<dump>"),
        "During parsing...\n\tin entity section,\n\tin Count,\n\tin entity tag,\nan error occurred: An invalid entity tag value was encountered, e.g. the internally reserved value of 0, or a max_tag that is smaller than a min_tag\nHex dump of the file at the error location:\n<dump>"
    );
    let input = b"$Entities\nabcdefghijklmnop\x01\xff";
    assert_eq!(error.report_position(input), 9);
    let report = error.report(input);
    assert!(report.starts_with("During parsing...\n\tin entity section,\n"));
    assert!(report.ends_with(
        "Hex dump of the file at the error location:\n\
         00000000\t0a 61 62 63 64 65 66 67 68 69 6a 6b 6c 6d 6e 6f \t.abcdefghijklmno\n\
         00000010\t70 01 ff                                        \tp.\u{fffd}\n"
    ));

    let single = make_error(3, MshParserErrorKind::NomError(TokenErrorKind::Tag))
        .with_append(3, MshParserErrorKind::InvalidSectionHeader);
    assert_eq!(
        single.report(b"abcdef"),
        "An error occurred during: Unexpected tokens found after file header. Expected a section according to the MSH file format specification."
    );
    let unknown = make_error(3, MshParserErrorKind::NomError(TokenErrorKind::Tag));
    assert_eq!(unknown.report(b"abcdef"), "Unknown error occurred\n");
    assert_eq!(unknown.report_position(b"abcdef"), 6);
    assert_eq!(sample_error().report_position(b"abc"), 3);
}

#[test]
fn test_report_of_a_parse_failure() {
    let msh = b"$MeshFormat\n4.1 0 8\n$EndMeshFormat\n$Elements\n1 1 1 1\n2 1 141 1\n1 1\n$EndElements\n";
    let error = parse_msh_bytes(msh).unwrap_err();
    assert_eq!(error.report_position(msh), 57);
    let report = error.report(msh);
    assert_eq!(
        report,
        "During parsing...\n\
         \tin element section,\n\
         \tin Count,\n\
         \tin element entity block (1 of 1),\n\
         \tin element type,\n\
         \tin value 141,\n\
         an error occurred: An unknown element type was encountered in the MSH file.\n\
         Hex dump of the file at the error location:\n\
         00000000\t31 34 31 20 31 0a 31 20 31 0a 24 45 6e 64 45 6c \t141 1.1 1.$EndEl\n\
         00000010\t65 6d 65 6e 74 73 0a                            \tements.\n"
    );
}
