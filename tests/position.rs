use rdp_update::position::{parser_position, ConfigLocation, PathKind, PositionError};

#[test]
fn missing_location() {
    assert_eq!(
        parser_position("C:\\nowhere", PathKind::Missing),
        Err(PositionError::NotFound("C:\\nowhere".to_string()))
    );
}

#[test]
fn directory_with_config() {
    assert_eq!(
        parser_position("C:\\Program Files\\RDP Wrapper", PathKind::Directory { holds_config: true }),
        Ok(ConfigLocation::InDirectory)
    );
}

#[test]
fn directory_without_config() {
    assert_eq!(
        parser_position("/tmp", PathKind::Directory { holds_config: false }),
        Err(PositionError::NoConfigInDirectory("/tmp".to_string()))
    );
}

#[test]
fn file_named_config() {
    for p in ["C:\\Program Files\\RDP Wrapper\\rdpwrap.ini", "/etc/rdpwrap.ini", "rdpwrap.ini"] {
        assert_eq!(parser_position(p, PathKind::File), Ok(ConfigLocation::AsGiven));
    }
}

#[test]
fn file_with_another_name() {
    for p in ["C:\\x\\rdpwrap.txt", "C:\\x\\myrdpwrap.ini", "ini", "rdpwrap.ini.bak"] {
        assert_eq!(parser_position(p, PathKind::File), Err(PositionError::NotConfigFile));
    }
}

#[test]
fn neither_file_nor_directory() {
    assert_eq!(
        parser_position("\\\\.\\pipe", PathKind::Other),
        Err(PositionError::Invalid("\\\\.\\pipe".to_string()))
    );
}
