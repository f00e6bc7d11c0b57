use harbomux::exec::{Invocation, Mode};
use harbomux::handshake::{
    config_path, config_under, launch, locate_config, startup, CONFIG_FILE,
};
use harbomux::tmux::Tmux;

#[test]
fn config_file_lies_below_home() {
    assert_eq!(CONFIG_FILE, "/.config/harbomux");
    assert_eq!(config_path("/home/user"), "/home/user/.config/harbomux");
    assert_eq!(config_path(""), "/.config/harbomux");
}

#[test]
fn config_under_a_home_directory() {
    assert_eq!(
        config_under(&Some("/home/user".to_string())),
        Some("/home/user/.config/harbomux".to_string())
    );
    assert_eq!(config_under(&Some(String::new())), Some("/.config/harbomux".to_string()));
}

#[test]
fn no_config_without_a_home_directory() {
    assert_eq!(config_under(&None), None);
}

#[test]
fn located_config_lies_below_some_home() {
    if let Some(path) = locate_config() {
        assert!(path.ends_with("/.config/harbomux"));
    }
}

#[test]
fn startup_without_config_only_calls_back() {
    assert_eq!(startup("/usr/bin/harbomux", &None), "/usr/bin/harbomux --hidden setup");
}

#[test]
fn startup_with_config_reads_it_first() {
    assert_eq!(
        startup("/usr/bin/harbomux", &Some("/home/user/.config/harbomux".to_string())),
        "source /home/user/.config/harbomux; /usr/bin/harbomux --hidden setup"
    );
}

#[test]
fn launch_creates_the_session_in_the_background() {
    let inv = launch(&Tmux::managed(), "/usr/bin/harbomux", &None);
    assert_eq!(
        inv,
        Invocation {
            mode: Mode::Spawn,
            argv: vec![
                "sh".to_string(),
                "-c".to_string(),
                "tmux -L harbonizer new-session -d -e HARBOMUX=pre-setup \"/usr/bin/harbomux --hidden setup\""
                    .to_string(),
            ],
        }
    );
}

#[test]
fn launch_with_config() {
    let inv = launch(&Tmux::managed(), "/opt/h", &Some("/root/.config/harbomux".to_string()));
    assert_eq!(
        inv.argv[2],
        "tmux -L harbonizer new-session -d -e HARBOMUX=pre-setup \"source /root/.config/harbomux; /opt/h --hidden setup\""
    );
    assert_eq!(inv.mode, Mode::Spawn);
    assert_eq!(inv.argv.len(), 3);
}

#[test]
fn launch_goes_to_the_server_of_the_handle() {
    let inv = launch(&Tmux::new(), "h", &None);
    assert_eq!(inv.argv[2], "tmux new-session -d -e HARBOMUX=pre-setup \"h --hidden setup\"");
}
