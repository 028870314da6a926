use config::{Config, File, FileFormat};
use slack_irc::settings::Settings;

fn load(text: &str) -> Config {
    let mut config = Config::default();
    config.merge(File::from_str(text, FileFormat::Toml)).unwrap();
    config
}

#[test]
fn everything_is_read() {
    let settings = Settings::read(&load(
        "database = \"a.db\"\n\
         [irc]\nbotnick = \"bot\"\nhost = \"h\"\nlisten = \"127.0.0.1:6667\"\n\
         [slack]\nclient_id = \"c\"\nsecret = \"s\"\n",
    ));
    assert_eq!(settings.database, Some("a.db".to_string()));
    assert_eq!(settings.irc_botnick, Some("bot".to_string()));
    assert_eq!(settings.irc_host, Some("h".to_string()));
    assert_eq!(settings.irc_listen, Some("127.0.0.1:6667".to_string()));
    assert_eq!(settings.slack_client_id, Some("c".to_string()));
    assert_eq!(settings.slack_secret, Some("s".to_string()));
    assert_eq!(settings.database_path(), "a.db");
    assert_eq!(format!("{:?}", settings.clone()), format!("{:?}", settings));
}

#[test]
fn what_is_missing_is_missing() {
    let settings = Settings::read(&load("[slack]\nclient_id = 17\n[irc]\nhost = [1]\n"));
    assert_eq!(settings.database, None);
    assert_eq!(settings.irc_botnick, None);
    assert_eq!(settings.irc_host, None);
    assert_eq!(settings.irc_listen, None);
    assert_eq!(settings.slack_client_id, Some("17".to_string()));
    assert_eq!(settings.slack_secret, None);
    assert_eq!(settings.database_path(), ":memory:");
}
