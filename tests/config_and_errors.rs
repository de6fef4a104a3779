use local_coin::config::{contract_path, LocalCoinConfig};
use local_coin::errors::CommandError;

#[test]
fn contract_path_comes_from_the_config() {
    let config = LocalCoinConfig::new("/srv/contracts/opt".to_string());
    assert_eq!(contract_path(&config), "/srv/contracts/opt");
}

#[test]
fn io_errors_become_command_errors() {
    let e = std::io::Error::new(std::io::ErrorKind::NotFound, "no cargo");
    let c = CommandError::from(e);
    assert!(matches!(c, CommandError::CommandError(_)));
    assert_eq!(c.source().kind(), std::io::ErrorKind::NotFound);
    let c = CommandError::ResetDirError(std::io::Error::new(std::io::ErrorKind::Other, "x"));
    assert_eq!(c.source().to_string(), "x");
}
