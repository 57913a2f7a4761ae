use std::sync::Mutex;

use easy_git::git::credentials::{
    helper_credential, helper_request, key_pairs_to_try, parse_helper_reply, plan_credential, probe_identities,
    resolve_credential, sanitize_url, scheme_allowed, CredentialPlan, IdentityProbe,
};

fn probe(private_key: &str, private_exists: bool, public_exists: bool) -> IdentityProbe {
    IdentityProbe {
        private_key: private_key.to_string(),
        public_key: format!("{}.pub", private_key),
        private_exists,
        public_exists,
    }
}

#[test]
fn only_known_schemes_reach_the_helper() {
    assert!(scheme_allowed("http://example.com/repo.git"));
    assert!(scheme_allowed("https://example.com/repo.git"));
    assert!(scheme_allowed("git://example.com/repo.git"));
    assert!(scheme_allowed("ssh://git@example.com/repo.git"));
    assert!(!scheme_allowed("ftp://example.com/repo.git"));
    assert!(!scheme_allowed("file:///tmp/repo"));
    assert!(!scheme_allowed("git@example.com:repo.git"));
    assert!(!scheme_allowed(""));
    assert_eq!(sanitize_url("ftp://example.com/a"), None);
}

#[test]
fn shell_metacharacters_are_stripped() {
    assert_eq!(
        sanitize_url("https://example.com/a;rm -rf|b&c$d`e\nf\rg"),
        Some("https://example.com/arm -rfbcdefg".to_string())
    );
    assert_eq!(
        sanitize_url("https://example.com/plain"),
        Some("https://example.com/plain".to_string())
    );
}

#[test]
fn long_endpoints_are_refused() {
    let base = "https://";
    let exact = format!("{}{}", base, "a".repeat(2048 - base.len()));
    assert_eq!(sanitize_url(&exact), Some(exact.clone()));
    let over = format!("{}a", exact);
    assert_eq!(sanitize_url(&over), None);
    let padded = format!("{}{}", exact, ";".repeat(10));
    assert_eq!(sanitize_url(&padded), Some(exact));
}

#[test]
fn helper_request_is_one_url_line_and_an_empty_line() {
    assert_eq!(helper_request("https://example.com/r"), "url=https://example.com/r\n\n");
}

#[test]
fn helper_reply_needs_both_fields() {
    let both = parse_helper_reply("protocol=https\nusername=alice\npassword=s3cret\n").unwrap();
    assert_eq!(both.username, "alice");
    assert_eq!(both.password, "s3cret");
    assert!(parse_helper_reply("username=alice\n").is_none());
    assert!(parse_helper_reply("password=s3cret\n").is_none());
    assert!(parse_helper_reply("").is_none());
}

#[test]
fn helper_reply_takes_the_last_value_and_drops_line_endings() {
    let reply = parse_helper_reply("username=a\r\nusername=b\r\npassword=p=q\r\npassword=z").unwrap();
    assert_eq!(reply.username, "b");
    assert_eq!(reply.password, "z");
    let kept = parse_helper_reply("username=u\npassword=tail\r").unwrap();
    assert_eq!(kept.password, "tail\r");
    let spaced = parse_helper_reply(" username=x\nusername=\npassword=").unwrap();
    assert_eq!(spaced.username, "");
    assert_eq!(spaced.password, "");
}

#[test]
fn key_pairs_follow_the_private_keys_that_exist() {
    let probes = vec![
        probe("/h/.ssh/id_ed25519", false, true),
        probe("/h/.ssh/id_rsa", true, false),
        probe("/h/.ssh/id_ecdsa", true, true),
    ];
    let pairs = key_pairs_to_try(&probes);
    assert_eq!(pairs.len(), 2);
    assert_eq!(pairs[0].private_key, "/h/.ssh/id_rsa");
    assert_eq!(pairs[0].public_key, None);
    assert_eq!(pairs[1].private_key, "/h/.ssh/id_ecdsa");
    assert_eq!(pairs[1].public_key, Some("/h/.ssh/id_ecdsa.pub".to_string()));
}

#[test]
fn plan_prefers_key_pairs_where_they_are_allowed() {
    let probes = vec![probe("/h/.ssh/id_ed25519", true, true)];
    match plan_credential("ssh://example.com/r", Some("alice"), true, &probes) {
        CredentialPlan::KeyPairs { username, pairs } => {
            assert_eq!(username, "alice");
            assert_eq!(pairs.len(), 1);
        }
        other => panic!("unexpected plan {:?}", other),
    }
    match plan_credential("ssh://example.com/r", None, true, &Vec::new()) {
        CredentialPlan::KeyPairs { username, pairs } => {
            assert_eq!(username, "git");
            assert!(pairs.is_empty());
        }
        other => panic!("unexpected plan {:?}", other),
    }
}

#[test]
fn plan_asks_the_helper_for_allowed_endpoints_only() {
    match plan_credential("https://example.com/r;x", Some("alice"), false, &Vec::new()) {
        CredentialPlan::Helper { request } => assert_eq!(request, "url=https://example.com/rx\n\n"),
        other => panic!("unexpected plan {:?}", other),
    }
    assert!(matches!(
        plan_credential("file:///tmp/r", None, false, &Vec::new()),
        CredentialPlan::Anonymous
    ));
}

#[test]
fn identities_are_looked_for_below_the_home_directory() {
    assert!(probe_identities("").is_empty());
    let probes = probe_identities("/nonexistent/home/for/easy_git");
    let keys: Vec<&str> = probes.iter().map(|p| p.private_key.as_str()).collect();
    assert_eq!(
        keys,
        vec![
            "/nonexistent/home/for/easy_git/.ssh/id_ed25519",
            "/nonexistent/home/for/easy_git/.ssh/id_rsa",
            "/nonexistent/home/for/easy_git/.ssh/id_ecdsa",
        ]
    );
    for p in &probes {
        assert_eq!(p.public_key, format!("{}.pub", p.private_key));
        assert!(!p.private_exists);
        assert!(!p.public_exists);
    }
}

#[test]
fn helper_answer_becomes_a_plaintext_credential() {
    let asked: Mutex<Vec<String>> = Mutex::new(Vec::new());
    let helper = |request: String| {
        asked.lock().unwrap().push(request);
        Some("username=alice\npassword=s3cret\n".to_string())
    };
    let cred = resolve_credential("https://example.com/r;x", None, false, "/home/alice", &helper)
        .unwrap();
    assert_eq!(cred.credtype(), git2::CredentialType::USER_PASS_PLAINTEXT.bits());
    assert_eq!(*asked.lock().unwrap(), vec!["url=https://example.com/rx\n\n".to_string()]);
}

#[test]
fn failing_helper_gives_the_default_credential() {
    let failing = |_: String| -> Option<String> { None };
    let cred = resolve_credential("https://example.com/r", None, false, "", &failing).unwrap();
    assert_eq!(cred.credtype(), git2::CredentialType::DEFAULT.bits());
    let partial = |_: String| Some("username=alice\n".to_string());
    let cred = resolve_credential("https://example.com/r", None, false, "", &partial).unwrap();
    assert_eq!(cred.credtype(), git2::CredentialType::DEFAULT.bits());
}

#[test]
fn refused_endpoints_never_reach_the_helper() {
    let asked: Mutex<Vec<String>> = Mutex::new(Vec::new());
    let helper = |request: String| {
        asked.lock().unwrap().push(request);
        Some("username=alice\npassword=s3cret\n".to_string())
    };
    let cred = resolve_credential("file:///tmp/r", None, false, "", &helper).unwrap();
    assert_eq!(cred.credtype(), git2::CredentialType::DEFAULT.bits());
    assert!(asked.lock().unwrap().is_empty());
}

#[test]
fn key_pair_endpoints_fall_back_to_the_agent() {
    let asked: Mutex<Vec<String>> = Mutex::new(Vec::new());
    let helper = |request: String| {
        asked.lock().unwrap().push(request);
        None
    };
    let without_home = resolve_credential("ssh://example.com/r", Some("alice"), true, "", &helper)
        .unwrap();
    assert_eq!(without_home.credtype(), git2::CredentialType::SSH_KEY.bits());
    let without_keys = resolve_credential(
        "ssh://example.com/r",
        None,
        true,
        "/nonexistent/home/for/easy_git",
        &helper,
    )
    .unwrap();
    assert_eq!(without_keys.credtype(), git2::CredentialType::SSH_KEY.bits());
    assert!(asked.lock().unwrap().is_empty());
}

#[test]
fn helper_answers_decide_the_kind_of_credential() {
    let both = helper_credential(Some("username=u\npassword=p\n".to_string())).unwrap();
    assert_eq!(both.credtype(), git2::CredentialType::USER_PASS_PLAINTEXT.bits());
    let one = helper_credential(Some("password=p\n".to_string())).unwrap();
    assert_eq!(one.credtype(), git2::CredentialType::DEFAULT.bits());
    let failed = helper_credential(None).unwrap();
    assert_eq!(failed.credtype(), git2::CredentialType::DEFAULT.bits());
    assert_eq!(git2::CredentialType::USER_PASS_PLAINTEXT.bits(), 1);
    assert_eq!(git2::CredentialType::SSH_KEY.bits(), 2);
    assert_eq!(git2::CredentialType::DEFAULT.bits(), 8);
}
