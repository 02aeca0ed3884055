use encoding_rs::SHIFT_JIS;
use saori_interface_rs::{
    SaoriCharset, SaoriCommand, SaoriRequest, SaoriRequestArgumentError,
    SaoriRequestCharsetError, SaoriRequestError, SaoriRequestVersionLineError,
    SaoriSecurityLevel, SaoriVersion, MAX_REQUEST_LEN,
};

#[test]
fn success_when_valid_bytes() {
    let case_raw = "GET Version SAORI/1.0\r\nCharset: Shift_JIS\r\n\r\n";
    let (case, _, _) = SHIFT_JIS.encode(&case_raw);
    let result = SaoriRequest::new(&case).unwrap();
    assert_eq!(result.charset(), &SaoriCharset::ShiftJIS);
    assert_eq!(result.command(), &SaoriCommand::GetVersion);
    assert_eq!(result.version(), &SaoriVersion::V1_0);
    assert_eq!(result.security_level(), None);
    assert_eq!(result.arguments(), &Vec::<String>::new());
    assert_eq!(result.sender(), None);
}

#[test]
fn failed_when_invalid_bytes() {
    let case_raw = "GET SAORI/1.0\r\nCharset: Shift_JIS\r\n\r\n";
    let (case, _, _) = SHIFT_JIS.encode(&case_raw);
    assert!(SaoriRequest::new(&case).is_err());
}

#[test]
fn request_success_when_valid_bytes() {
    let case_raw = "GET Version SAORI/1.0\r\nCharset: Shift_JIS\r\n\r\n";
    let (case, _, _) = SHIFT_JIS.encode(&case_raw);
    let (contents, charset) = SaoriRequest::read_contents_and_charset(&case).unwrap();
    assert_eq!(contents.as_str(), case_raw);
    assert_eq!(charset, SaoriCharset::ShiftJIS);
}

#[test]
fn request_failed_when_invalid_bytes() {
    let case_raw = "EXECUTE SHIORI/1.0\r\nCharset: UTF-8\r\nArgument0: あいうえお\r\n\r\n";
    let (case, _, _) = SHIFT_JIS.encode(&case_raw);
    assert!(SaoriRequest::read_contents_and_charset(&case).is_err());
}

#[test]
fn success_when_valid_str_get_version() {
    let case = Some("GET Version SAORI/1.0");
    let (command, version) = SaoriRequest::parse_version_and_command(case).unwrap();
    assert_eq!(command, SaoriCommand::GetVersion);
    assert_eq!(version, SaoriVersion::V1_0);
}

#[test]
fn success_when_valid_str_execute() {
    let case = Some("EXECUTE SAORI/1.0");
    let (command, version) = SaoriRequest::parse_version_and_command(case).unwrap();
    assert_eq!(command, SaoriCommand::Execute);
    assert_eq!(version, SaoriVersion::V1_0);
}

#[test]
fn failed_when_invalid_command() {
    let case = Some("SOMETHINGWRONG SAORI/1.0");
    assert!(SaoriRequest::parse_version_and_command(case).is_err());
}

#[test]
fn failed_when_invalid_version() {
    let case = Some("EXECUTE SAORI1.0");
    assert!(SaoriRequest::parse_version_and_command(case).is_err());
}

#[test]
fn failed_when_none() {
    let case = None;
    assert!(SaoriRequest::parse_version_and_command(case).is_err());
}

#[test]
fn execute_when_valid_str_local() {
    let case = "SecurityLevel: Local";
    let mut security_level = None;
    SaoriRequest::parse_security_level(case, &mut security_level);
    assert_eq!(security_level, Some(SaoriSecurityLevel::Local));
}

#[test]
fn execute_when_valid_str_external() {
    let case = "SecurityLevel: External";
    let mut security_level = None;
    SaoriRequest::parse_security_level(case, &mut security_level);
    assert_eq!(security_level, Some(SaoriSecurityLevel::External));
}

#[test]
fn nothing_when_invalid_str() {
    let case = "Argument2: aaa";
    let mut security_level = None;
    SaoriRequest::parse_security_level(case, &mut security_level);
    assert!(security_level.is_none());
}

#[test]
fn request_nothing_when_invalid_str() {
    let case = "Argument3: aaaa";
    let mut sender = None;
    SaoriRequest::parse_sender(&case, &mut sender);
    assert!(sender.is_none());
}

#[test]
fn success_when_valid_str_inner() {
    let case = "Argument2: あああ";
    let mut arguments = vec!["".to_string(), "".to_string(), "".to_string()];
    SaoriRequest::parse_arguments(case, &mut arguments).unwrap();
    assert_eq!(
        arguments,
        vec!["".to_string(), "".to_string(), "あああ".to_string(),]
    );
}

#[test]
fn success_when_valid_str_outer() {
    let case = "Argument2: あああ";
    let mut arguments = vec!["".to_string()];
    SaoriRequest::parse_arguments(case, &mut arguments).unwrap();
    assert_eq!(
        arguments,
        vec!["".to_string(), "".to_string(), "あああ".to_string(),]
    );
}

#[test]
fn failed_when_invalid_separator() {
    let case = "Argument2 aaa";
    let mut arguments = Vec::new();
    let result = SaoriRequest::parse_arguments(case, &mut arguments);
    assert!(result.is_err());
}

#[test]
fn failed_when_invalid_no_index() {
    let case = "Argumentaaa: aaa";
    let mut arguments = Vec::new();
    let result = SaoriRequest::parse_arguments(case, &mut arguments);
    assert!(result.is_err());
}

#[test]
fn execute_when_valid_str() {
    let case = "Sender: materia";
    let mut sender = None;
    SaoriRequest::parse_sender(&case, &mut sender);
    assert_eq!(sender, Some("materia".to_string()));
}

#[test]
fn decodes_the_first_example_of_the_protocol() {
    let request_raw = "EXECUTE SAORI/1.0\r\nCharset: UTF-8\r\n\r\n\0";
    let request = SaoriRequest::new(request_raw.as_bytes()).unwrap();
    assert_eq!(request.charset(), &SaoriCharset::UTF8);
    assert_eq!(request.command(), &SaoriCommand::Execute);
    assert_eq!(request.version(), &SaoriVersion::V1_0);
    assert!(request.security_level().is_none());
    assert!(request.arguments().is_empty());
    assert!(request.sender().is_none());
}

#[test]
fn decodes_every_header() {
    let raw = "EXECUTE SAORI/1.0\r\nCharset: UTF-8\r\nSecurityLevel: External\r\nArgument0: foo\r\nArgument1: bar: baz\r\nSender: host\r\nX-Unknown: 1\r\n\r\n\0";
    let request = SaoriRequest::new(raw.as_bytes()).unwrap();
    assert_eq!(request.charset(), &SaoriCharset::UTF8);
    assert_eq!(request.command(), &SaoriCommand::Execute);
    assert_eq!(request.security_level(), Some(&SaoriSecurityLevel::External));
    assert_eq!(
        request.arguments(),
        &vec!["foo".to_string(), "bar: baz".to_string()]
    );
    assert_eq!(request.sender(), Some(&"host".to_string()));
}

#[test]
fn arguments_fill_the_gaps_below_an_index() {
    let raw = "EXECUTE SAORI/1.0\r\nCharset: UTF-8\r\nArgument2: x\r\n\r\n\0";
    let request = SaoriRequest::new(raw.as_bytes()).unwrap();
    assert_eq!(
        request.arguments(),
        &vec![String::new(), String::new(), "x".to_string()]
    );
}

#[test]
fn arguments_may_come_in_any_order_and_the_last_one_wins() {
    let raw = "EXECUTE SAORI/1.0\r\nArgument1: b\r\nArgument0: a\r\nArgument1: c\r\n";
    let request = SaoriRequest::new(raw.as_bytes()).unwrap();
    assert_eq!(request.arguments(), &vec!["a".to_string(), "c".to_string()]);
}

#[test]
fn an_index_may_have_a_plus_sign_and_leading_zeros() {
    let mut arguments = Vec::new();
    SaoriRequest::parse_arguments("Argument+01: v", &mut arguments).unwrap();
    assert_eq!(arguments, vec![String::new(), "v".to_string()]);
}

#[test]
fn the_last_sender_wins() {
    let raw = "EXECUTE SAORI/1.0\r\nSender: one\r\nSender: two\r\n";
    let request = SaoriRequest::new(raw.as_bytes()).unwrap();
    assert_eq!(request.sender(), Some(&"two".to_string()));
}

#[test]
fn an_unknown_security_level_is_passed_over() {
    let mut level = Some(SaoriSecurityLevel::Local);
    SaoriRequest::parse_security_level("SecurityLevel: Remote", &mut level);
    assert_eq!(level, Some(SaoriSecurityLevel::Local));
    let raw = "EXECUTE SAORI/1.0\r\nSecurityLevel: local\r\n";
    let request = SaoriRequest::new(raw.as_bytes()).unwrap();
    assert_eq!(request.security_level(), None);
}

#[test]
fn a_request_without_a_charset_line_is_shift_jis() {
    let raw = "GET Version SAORI/1.0\r\n\r\n";
    let request = SaoriRequest::new(raw.as_bytes()).unwrap();
    assert_eq!(request.charset(), &SaoriCharset::ShiftJIS);
    assert_eq!(request.command(), &SaoriCommand::GetVersion);
}

#[test]
fn the_first_charset_line_decides() {
    let raw = "EXECUTE SAORI/1.0\r\nCharset: EUC-JP\r\nCharset: UTF-8\r\n";
    let request = SaoriRequest::new(raw.as_bytes()).unwrap();
    assert_eq!(request.charset(), &SaoriCharset::EucJP);
    assert_eq!(
        SaoriRequest::find_charset("Charset: ISO-2022-JP\r\nCharset: bogus\r\n"),
        Ok(SaoriCharset::ISO2022JP)
    );
    assert_eq!(
        SaoriRequest::find_charset("EXECUTE SAORI/1.0\r\n"),
        Ok(SaoriCharset::ShiftJIS)
    );
}

#[test]
fn text_is_read_in_the_declared_charset() {
    let raw = "EXECUTE SAORI/1.0\r\nCharset: Shift_JIS\r\nArgument0: あいうえお\r\nSender: 里々\r\n\r\n\0";
    let (bytes, _, unmappable) = SHIFT_JIS.encode(raw);
    assert!(!unmappable);
    assert!(std::str::from_utf8(&bytes).is_err());
    let request = SaoriRequest::new(&bytes).unwrap();
    assert_eq!(request.charset(), &SaoriCharset::ShiftJIS);
    assert_eq!(request.arguments(), &vec!["あいうえお".to_string()]);
    assert_eq!(request.sender(), Some(&"里々".to_string()));

    let (bytes, _, _) = encoding_rs::EUC_JP.encode("EXECUTE SAORI/1.0\r\nCharset: EUC-JP\r\nArgument0: 日本語\r\n");
    let (contents, charset) = SaoriRequest::read_contents_and_charset(&bytes).unwrap();
    assert_eq!(charset, SaoriCharset::EucJP);
    assert_eq!(contents, "EXECUTE SAORI/1.0\r\nCharset: EUC-JP\r\nArgument0: 日本語\r\n");

    let (bytes, _, _) = encoding_rs::ISO_2022_JP.encode("EXECUTE SAORI/1.0\r\nCharset: ISO-2022-JP\r\nArgument0: 日本語\r\n");
    let request = SaoriRequest::new(&bytes).unwrap();
    assert_eq!(request.charset(), &SaoriCharset::ISO2022JP);
    assert_eq!(request.arguments(), &vec!["日本語".to_string()]);
}

#[test]
fn each_error_has_an_input_that_gives_it() {
    assert_eq!(
        SaoriRequest::new(b"EXECUTE SAORI/1.0\r\nCharset: UTF-8\r\nSender: \xff\xfe\r\n"),
        Err(SaoriRequestError::Charset(SaoriRequestCharsetError::DecodeFailed))
    );
    assert_eq!(
        SaoriRequest::new(b"EXECUTE SAORI/1.0\r\nCharset: Latin-1\r\n"),
        Err(SaoriRequestError::Charset(SaoriRequestCharsetError::UnsupportedCharset))
    );
    assert_eq!(
        SaoriRequest::new(b"EXECUTE SAORI/1.0\r\nCharset: utf-8\r\n"),
        Err(SaoriRequestError::Charset(SaoriRequestCharsetError::UnsupportedCharset))
    );
    assert_eq!(
        SaoriRequest::new(b""),
        Err(SaoriRequestError::VersionLine(SaoriRequestVersionLineError::EmptyRequest))
    );
    assert_eq!(
        SaoriRequest::new(b"EXECUTE SAORI/2.0\r\n"),
        Err(SaoriRequestError::VersionLine(SaoriRequestVersionLineError::NoVersion))
    );
    assert_eq!(
        SaoriRequest::new(b"EXECUTE SAORI/1.0 \r\n"),
        Err(SaoriRequestError::VersionLine(SaoriRequestVersionLineError::NoVersion))
    );
    assert_eq!(
        SaoriRequest::new(b"\r\nEXECUTE SAORI/1.0\r\n"),
        Err(SaoriRequestError::VersionLine(SaoriRequestVersionLineError::NoCommand))
    );
    assert_eq!(
        SaoriRequest::new(b"EXECUTE SAORI/1.0\r\nArgument0:x\r\n"),
        Err(SaoriRequestError::Argument(SaoriRequestArgumentError::InvalidSeparator))
    );
    assert_eq!(
        SaoriRequest::new(b"EXECUTE SAORI/1.0\r\nArgument: x\r\n"),
        Err(SaoriRequestError::Argument(SaoriRequestArgumentError::NoIndex))
    );
    assert_eq!(
        SaoriRequest::new(b"EXECUTE SAORI/1.0\r\nArgument-1: x\r\n"),
        Err(SaoriRequestError::Argument(SaoriRequestArgumentError::NoIndex))
    );
    assert_eq!(
        SaoriRequest::new(b"EXECUTE SAORI/1.0\r\nArgument99999999999999999999999999: x\r\n"),
        Err(SaoriRequestError::Argument(SaoriRequestArgumentError::NoIndex))
    );
}

#[test]
fn a_first_line_without_a_command_is_refused_as_such() {
    let case_raw = "GET SAORI/1.0\r\nCharset: Shift_JIS\r\n\r\n";
    let (case, _, _) = SHIFT_JIS.encode(case_raw);
    assert_eq!(
        SaoriRequest::new(&case),
        Err(SaoriRequestError::VersionLine(SaoriRequestVersionLineError::NoCommand))
    );
}

#[test]
fn a_refused_argument_line_leaves_the_arguments_alone() {
    let mut arguments = vec!["kept".to_string()];
    assert_eq!(
        SaoriRequest::parse_arguments("Argument0 lost", &mut arguments),
        Err(SaoriRequestError::Argument(SaoriRequestArgumentError::InvalidSeparator))
    );
    assert_eq!(
        SaoriRequest::parse_arguments("Argumentx: lost", &mut arguments),
        Err(SaoriRequestError::Argument(SaoriRequestArgumentError::NoIndex))
    );
    assert_eq!(SaoriRequest::parse_arguments("Sender: x", &mut arguments), Ok(()));
    assert_eq!(arguments, vec!["kept".to_string()]);
}

#[test]
fn from_text_parses_what_was_decoded() {
    let request = SaoriRequest::from_text(
        SaoriCharset::EucJP,
        "GET Version SAORI/1.0\nSender: あ\r\nArgument0: \r",
    )
    .unwrap();
    assert_eq!(request.charset(), &SaoriCharset::EucJP);
    assert_eq!(request.command(), &SaoriCommand::GetVersion);
    assert_eq!(request.sender(), Some(&"あ".to_string()));
    assert_eq!(request.arguments(), &vec!["\r".to_string()]);
}

#[test]
fn wire_names_are_found_again() {
    for charset in [
        SaoriCharset::ShiftJIS,
        SaoriCharset::EucJP,
        SaoriCharset::UTF8,
        SaoriCharset::ISO2022JP,
    ] {
        assert_eq!(SaoriCharset::try_from(charset.to_str()), Ok(charset));
    }
    assert_eq!(SaoriCharset::ShiftJIS.to_str(), "Shift_JIS");
    assert_eq!(SaoriCharset::EucJP.to_str(), "EUC-JP");
    assert_eq!(SaoriCharset::UTF8.to_str(), "UTF-8");
    assert_eq!(SaoriCharset::ISO2022JP.to_str(), "ISO-2022-JP");
    assert_eq!(
        SaoriCharset::try_from("Shift_JIS "),
        Err(SaoriRequestCharsetError::UnsupportedCharset)
    );
    assert_eq!(SaoriCommand::Execute.to_str(), "EXECUTE");
    assert_eq!(SaoriCommand::GetVersion.to_str(), "GET Version");
    assert_eq!(SaoriVersion::V1_0.to_str(), "SAORI/1.0");
    assert_eq!(SaoriSecurityLevel::Local.to_str(), "Local");
    assert_eq!(SaoriSecurityLevel::External.to_str(), "External");
}

#[test]
fn errors_convert_into_the_request_error() {
    assert_eq!(
        SaoriRequestError::from(SaoriRequestCharsetError::DecodeFailed),
        SaoriRequestError::Charset(SaoriRequestCharsetError::DecodeFailed)
    );
    assert_eq!(
        SaoriRequestError::from(SaoriRequestVersionLineError::NoVersion),
        SaoriRequestError::VersionLine(SaoriRequestVersionLineError::NoVersion)
    );
    assert_eq!(
        SaoriRequestError::from(SaoriRequestArgumentError::NoIndex),
        SaoriRequestError::Argument(SaoriRequestArgumentError::NoIndex)
    );
}

#[test]
fn a_text_with_anything_malformed_is_refused() {
    assert_eq!(
        SaoriRequest::well_formed("EXECUTE SAORI/1.0".to_string(), false),
        Ok("EXECUTE SAORI/1.0".to_string())
    );
    assert_eq!(
        SaoriRequest::well_formed("EXECUTE SAORI/1.0".to_string(), true),
        Err(SaoriRequestCharsetError::DecodeFailed)
    );
    assert_eq!(SaoriRequest::well_formed(String::new(), false), Ok(String::new()));
    let (bytes, _, _) = SHIFT_JIS.encode("EXECUTE SAORI/1.0\r\nCharset: EUC-JP\r\nSender: あ\r\n");
    assert_eq!(
        SaoriRequest::new(&bytes),
        Err(SaoriRequestError::Charset(SaoriRequestCharsetError::DecodeFailed))
    );
}

#[test]
fn a_byte_order_mark_is_no_part_of_the_text() {
    let mut bytes = vec![0xef, 0xbb, 0xbf];
    bytes.extend_from_slice("EXECUTE SAORI/1.0\r\nCharset: Shift_JIS\r\nSender: あ\r\n".as_bytes());
    let (contents, charset) = SaoriRequest::read_contents_and_charset(&bytes).unwrap();
    assert_eq!(charset, SaoriCharset::ShiftJIS);
    assert_eq!(contents, "EXECUTE SAORI/1.0\r\nCharset: Shift_JIS\r\nSender: あ\r\n");
    let request = SaoriRequest::new(&bytes).unwrap();
    assert_eq!(request.command(), &SaoriCommand::Execute);
    assert_eq!(request.sender(), Some(&"あ".to_string()));
}

#[test]
fn the_longest_request_is_a_sixteenth_of_the_address_space() {
    assert_eq!(MAX_REQUEST_LEN, usize::MAX / 16);
}

#[test]
fn an_argument_line_that_was_written_is_read_back() {
    for index in [0usize, 7, 10, 123] {
        for value in ["", "v", "a: b", ": ", "12: 34", "あ"] {
            let line = format!("Argument{}: {}", index, value);
            let mut arguments = vec!["kept".to_string()];
            assert_eq!(SaoriRequest::parse_arguments(&line, &mut arguments), Ok(()));
            assert_eq!(arguments.len(), std::cmp::max(index + 1, 1));
            assert_eq!(arguments[index], value);
            if index > 0 {
                assert_eq!(arguments[0], "kept");
            }
            for between in 1..index {
                assert_eq!(arguments[between], "");
            }
        }
    }
}

#[test]
fn a_first_line_that_was_written_is_read_back() {
    for command in [SaoriCommand::Execute, SaoriCommand::GetVersion] {
        let line = format!("{} {}", command.to_str(), SaoriVersion::V1_0.to_str());
        assert_eq!(
            SaoriRequest::parse_version_and_command(Some(&line)),
            Ok((command, SaoriVersion::V1_0))
        );
    }
    assert_eq!(
        SaoriRequest::parse_version_and_command(Some("GET Version")),
        Err(SaoriRequestError::VersionLine(SaoriRequestVersionLineError::NoCommand))
    );
    assert_eq!(
        SaoriRequest::parse_version_and_command(Some("EXECUTE ")),
        Err(SaoriRequestError::VersionLine(SaoriRequestVersionLineError::NoVersion))
    );
    assert_eq!(
        SaoriRequest::parse_version_and_command(Some("execute SAORI/1.0")),
        Err(SaoriRequestError::VersionLine(SaoriRequestVersionLineError::NoCommand))
    );
}
