use harbomux::context::{classify, ContextCache, ExecutionContext, HARB_VAR, TMUX_VAR};
use harbomux::os::Os;

fn env_of(pairs: &[(&str, &str)]) -> Os {
    let mut os = Os::new();
    for (key, value) in pairs {
        os.set_env(key, value);
    }
    os
}

#[test]
fn empty_environment_has_no_variable() {
    let os = Os::new();
    assert!(!os.has_env("HARBOMUX"));
    assert!(!os.has_env("TMUX"));
    assert_eq!(os.get_env("HARBOMUX"), None);
}

#[test]
fn set_env_binds_the_variable() {
    let mut os = Os::new();
    os.set_env("HARBOMUX", "pre-setup");
    assert!(os.has_env("HARBOMUX"));
    assert_eq!(os.get_env("HARBOMUX"), Some("pre-setup".to_string()));
    assert!(!os.has_env("TMUX"));
}

#[test]
fn set_env_replaces_an_earlier_value() {
    let mut os = env_of(&[("A", "1"), ("HARBOMUX", "pre-setup"), ("B", "2")]);
    os.set_env("HARBOMUX", "1");
    assert_eq!(os.get_env("HARBOMUX"), Some("1".to_string()));
    assert_eq!(os.get_env("A"), Some("1".to_string()));
    assert_eq!(os.get_env("B"), Some("2".to_string()));
    assert_eq!(os.get_env("C"), None);
}

#[test]
fn variable_names_are_exact() {
    let os = env_of(&[("harbomux", "1"), ("HARBOMUX ", "1")]);
    assert!(!os.has_env("HARBOMUX"));
    assert!(os.has_env("harbomux"));
}

#[test]
fn empty_value_counts_as_set() {
    let os = env_of(&[("TMUX", "")]);
    assert!(os.has_env("TMUX"));
    assert_eq!(os.get_env("TMUX"), Some(String::new()));
}

#[test]
fn sentinel_names() {
    assert_eq!(HARB_VAR, "HARBOMUX");
    assert_eq!(TMUX_VAR, "TMUX");
}

#[test]
fn classify_nested_when_managed_sentinel_is_set() {
    assert_eq!(classify(&env_of(&[("HARBOMUX", "1")])), ExecutionContext::Nested);
}

#[test]
fn classify_nested_wins_over_multiplexer() {
    let os = env_of(&[("TMUX", "/tmp/tmux-0/default,1,0"), ("HARBOMUX", "pre-setup")]);
    assert_eq!(classify(&os), ExecutionContext::Nested);
}

#[test]
fn classify_plain_multiplexer() {
    let os = env_of(&[("TMUX", "/tmp/tmux-0/default,1,0"), ("HOME", "/root")]);
    assert_eq!(classify(&os), ExecutionContext::PlainMultiplexer);
}

#[test]
fn classify_bare() {
    assert_eq!(classify(&Os::new()), ExecutionContext::Bare);
    assert_eq!(classify(&env_of(&[("HOME", "/root")])), ExecutionContext::Bare);
}

#[test]
fn classify_looks_at_presence_only() {
    assert_eq!(classify(&env_of(&[("HARBOMUX", "")])), ExecutionContext::Nested);
    assert_eq!(classify(&env_of(&[("TMUX", "")])), ExecutionContext::PlainMultiplexer);
}

#[test]
fn classify_is_the_same_each_time() {
    let os = env_of(&[("TMUX", "x")]);
    assert_eq!(classify(&os), classify(&os));
}

#[test]
fn context_names() {
    assert_eq!(ExecutionContext::Nested.name(), "nested");
    assert_eq!(ExecutionContext::PlainMultiplexer.name(), "plain-multiplexer");
    assert_eq!(ExecutionContext::Bare.name(), "bare");
}

#[test]
fn cache_starts_empty() {
    let cache = ContextCache::new();
    assert_eq!(cache.peek(), None);
}

#[test]
fn cache_remembers_the_first_answer() {
    let mut cache = ContextCache::new();
    let mut os = Os::new();
    assert_eq!(cache.classify(&os), ExecutionContext::Bare);
    assert_eq!(cache.peek(), Some(ExecutionContext::Bare));
    os.set_env("HARBOMUX", "pre-setup");
    assert_eq!(classify(&os), ExecutionContext::Nested);
    assert_eq!(cache.classify(&os), ExecutionContext::Bare);
    os.set_env("TMUX", "x");
    assert_eq!(cache.classify(&os), ExecutionContext::Bare);
    assert_eq!(cache.peek(), Some(ExecutionContext::Bare));
}

#[test]
fn cache_remembers_nested() {
    let mut cache = ContextCache::new();
    let os = env_of(&[("HARBOMUX", "1")]);
    assert_eq!(cache.classify(&os), ExecutionContext::Nested);
    assert_eq!(cache.classify(&Os::new()), ExecutionContext::Nested);
}

#[test]
fn two_caches_are_independent() {
    let mut first = ContextCache::new();
    let mut second = ContextCache::new();
    assert_eq!(first.classify(&Os::new()), ExecutionContext::Bare);
    assert_eq!(second.classify(&env_of(&[("TMUX", "x")])), ExecutionContext::PlainMultiplexer);
    assert_eq!(first.peek(), Some(ExecutionContext::Bare));
}
