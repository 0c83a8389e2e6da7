use ghost_check::base58::bs58_decode;
use ghost_check::auth::{new_ed25519_instruction, verify_signature, Instruction, InstructionSysvar};
use ghost_check::errors::GhostErrors;
use ghost_check::metrics::{
    account_age_days, commits_by, compute_dev_metrics, get_reputation_level, heaviest_language,
    language_field_of, top_languages,
};
use ghost_check::models::{Contributor, GithubUser, Owner, Repo, RepoInfo};
use ghost_check::payload::{dev_metrics_payload, repo_metrics_payload};
use ghost_check::sessions::{auth_status, create_session, get_token, SessionStore};
use ghost_check::signer::{
    hash_username, pad_repo_name, sign_dev_badge_metrics, signer_public_key, signing_key_from_hex,
};

const RFC_SECRET: &str = "9d61b19deffd5a60ba844af492ec2cc44449c5697b326919703bac031cae7f60";
const RFC_PUBLIC: &str = "d75a980182b10ab7d54bfed3c964073a0ee172f3daa62325af021a68f707511a";

fn rfc_secret() -> [u8; 32] {
    signing_key_from_hex(RFC_SECRET).unwrap()
}

fn repo(name: &str, owner: &str, fork: bool, stars: u32) -> Repo {
    Repo {
        name: name.to_string(),
        owner: Owner { login: owner.to_string() },
        fork,
        stargazers_count: stars,
    }
}

#[test]
fn sha256_known_answer() {
    assert_eq!(
        hex::encode(hash_username("abc")),
        "ba7816bf8f01cfea414140de5dae2223b00361a396177a9cb410ff61f20015ad"
    );
}

#[test]
fn ed25519_known_answer() {
    let secret = rfc_secret();
    assert_eq!(hex::encode(signer_public_key(&secret)), RFC_PUBLIC);
    let public: [u8; 32] = signer_public_key(&secret).try_into().unwrap();
    let (sig, _, digest) = sign_dev_badge_metrics(&secret, "alice", 1, 2, 3, 4, 5, 6, 7, 8, 2);
    let (sig_again, _, _) = sign_dev_badge_metrics(&secret, "alice", 1, 2, 3, 4, 5, 6, 7, 8, 2);
    assert_eq!(sig.len(), 64);
    assert_eq!(sig, sig_again);
    assert_ne!(sig, vec![0u8; 64]);
    let digest: [u8; 32] = digest.try_into().unwrap();
    let sysvar = |s: &[u8]| InstructionSysvar {
        instructions: vec![
            new_ed25519_instruction(&public, &s.try_into().unwrap(), &digest),
            Instruction { program_id: [0u8; 32], data: vec![] },
        ],
        current_index: 1,
    };
    assert_eq!(verify_signature(&sysvar(&sig), &public, &digest), Ok(()));
    let mut tampered = sig.clone();
    tampered[0] ^= 1;
    assert_eq!(
        verify_signature(&sysvar(&tampered), &public, &digest),
        Err(GhostErrors::InvalidSignature)
    );
}

#[test]
fn hex_secret_parsing() {
    assert_eq!(hex::encode(rfc_secret()), RFC_SECRET);
    assert_eq!(
        signing_key_from_hex(&RFC_SECRET.to_uppercase()),
        Some(rfc_secret())
    );
    assert!(signing_key_from_hex("abc").is_none());
    assert!(signing_key_from_hex("zz").is_none());
    assert!(signing_key_from_hex("0102").is_none());
    assert!(signing_key_from_hex(&format!("{}00", RFC_SECRET)).is_none());
}

#[test]
fn reputation_tiers() {
    assert_eq!(get_reputation_level(100, 1500, 730), 5);
    assert_eq!(get_reputation_level(100, 1500, 729), 4);
    assert_eq!(get_reputation_level(50, 500, 365), 4);
    assert_eq!(get_reputation_level(20, 200, 120), 3);
    assert_eq!(get_reputation_level(12, 300, 400), 2);
    assert_eq!(get_reputation_level(5, 30, 0), 2);
    assert_eq!(get_reputation_level(4, 1000, 1000), 1);
    assert_eq!(get_reputation_level(0, 0, 0), 1);
}

#[test]
fn dev_metrics_aggregation() {
    let repos = vec![
        repo("a", "alice", false, 10),
        repo("b", "alice", true, 5),
        repo("c", "bob", false, 100),
        repo("d", "alice", false, 25),
    ];
    let commits = vec![3, 0, 7, 20];
    assert_eq!(compute_dev_metrics(&repos, &commits, &"alice".to_string()), (4, 3, 30, 40));
    assert_eq!(compute_dev_metrics(&vec![], &vec![], &"alice".to_string()), (0, 0, 0, 0));
    let big = vec![repo("a", "x", false, u32::MAX), repo("b", "x", false, 1)];
    assert_eq!(
        compute_dev_metrics(&big, &vec![u32::MAX, 5], &"x".to_string()),
        (2, 2, u32::MAX, u32::MAX)
    );
}

#[test]
fn commits_of_first_matching_contributor() {
    let cs = vec![
        Contributor { login: "bob".to_string(), contributions: 4 },
        Contributor { login: "alice".to_string(), contributions: 9 },
        Contributor { login: "alice".to_string(), contributions: 1 },
    ];
    assert_eq!(commits_by(&cs, &"alice".to_string()), 9);
    assert_eq!(commits_by(&cs, &"carol".to_string()), 0);
}

#[test]
fn account_age() {
    assert_eq!(account_age_days(0, 86_400 * 400 + 5), 400);
    assert_eq!(account_age_days(100, 50), 0);
    assert_eq!(account_age_days(0, 86_399), 0);
}

#[test]
fn language_ranking() {
    let langs = vec![
        ("Python".to_string(), 300u64),
        ("Rust".to_string(), 900),
        ("Go".to_string(), 300),
        ("Jupyter Notebook".to_string(), 100),
    ];
    assert_eq!(heaviest_language(&langs, None), Some(1));
    assert_eq!(heaviest_language(&langs, Some(1)), Some(0));
    assert_eq!(heaviest_language(&vec![], None), None);
    assert_eq!(top_languages(&langs), (b"Rust".to_vec(), b"Python".to_vec()));
    assert_eq!(language_field_of(&"Jupyter Notebook".to_string()), b"Jupyter No".to_vec());
    let one = vec![("C".to_string(), 1u64)];
    assert_eq!(top_languages(&one), (b"C".to_vec(), vec![]));
}

#[test]
fn repo_name_padding() {
    let p = pad_repo_name(b"ghost");
    assert_eq!(&p[..5], b"ghost");
    assert!(p[5..].iter().all(|b| *b == 0));
    let long = [b'x'; 40];
    assert_eq!(pad_repo_name(&long), [b'x'; 32]);
}

#[test]
fn signed_dev_payload() {
    let secret = rfc_secret();
    let repos = vec![repo("a", "alice", false, 40), repo("b", "alice", true, 0)];
    let user = GithubUser {
        login: "alice".to_string(),
        followers: 20,
        created_at: "2020-01-01T00:00:00Z".to_string(),
    };
    let now = 1_577_836_800 + 86_400 * 400;
    let m = dev_metrics_payload(&secret, &"alice".to_string(), &repos, &vec![100, 200], 8, 3, &user, now)
        .unwrap();
    assert_eq!((m.repo_count, m.owned_repo_count, m.total_stars, m.total_commit), (2, 1, 40, 300));
    assert_eq!((m.prs_merged, m.issues_closed, m.followers, m.account_age_days), (8, 3, 20, 400));
    assert_eq!(m.reputation_level, 1);
    assert_eq!(m.hashed_username, hash_username("alice").to_vec());
    let (sig, _, digest) = sign_dev_badge_metrics(&secret, "alice", 2, 300, 1, 40, 8, 3, 20, 400, 1);
    assert_eq!(m.signed_message, digest);
    assert_eq!(m.signature, sig);
    assert_eq!(hex::encode(&m.public_key_bytes), RFC_PUBLIC);
    let bad = GithubUser { created_at: "not a date".to_string(), ..user };
    assert!(dev_metrics_payload(&secret, &"alice".to_string(), &repos, &vec![], 0, 0, &bad, now).is_none());
}

#[test]
fn signed_repo_payload() {
    let secret = rfc_secret();
    let info = RepoInfo {
        stargazers_count: 7,
        owner: Owner { login: "alice".to_string() },
        forks_count: 2,
        fork: false,
        open_issues_count: 1,
    };
    let langs = vec![("Python".to_string(), 10u64), ("Rust".to_string(), 20)];
    let cs = vec![Contributor { login: "alice".to_string(), contributions: 42 }];
    let m = repo_metrics_payload(&secret, &"alice".to_string(), &"ghost-check".to_string(), &info, &langs, &cs)
        .unwrap();
    assert_eq!((m.stars, m.commits, m.fork_count, m.issues_open_count, m.is_fork), (7, 42, 2, 1, 0));
    assert_eq!(m.lang1_bytes, b"Rust".to_vec());
    assert_eq!(m.lang2_bytes, b"Python".to_vec());
    assert_eq!(m.repo_name_bytes, pad_repo_name(b"ghost-check").to_vec());
    assert_eq!(m.signed_message.len(), 32);
    let not_owner = RepoInfo { owner: Owner { login: "bob".to_string() }, ..info };
    assert!(repo_metrics_payload(&secret, &"alice".to_string(), &"x".to_string(), &not_owner, &langs, &cs)
        .is_none());
}

#[test]
fn session_store_roundtrip() {
    let mut store = SessionStore::new();
    let id = create_session(&mut store, "token-1".to_string());
    assert_eq!(id.len(), 16);
    assert!(id.chars().all(|c| c.is_ascii_alphanumeric()));
    assert_eq!(get_token(&store, id.clone()), Some("token-1".to_string()));
    assert_eq!(get_token(&store, "missing".to_string()), None);
    store.insert(id.clone(), "token-2".to_string());
    assert_eq!(get_token(&store, id.clone()), Some("token-2".to_string()));
    assert_eq!(store.entries.len(), 1);
    let other = create_session(&mut store, "token-3".to_string());
    assert_eq!(get_token(&store, other.clone()), Some("token-3".to_string()));
    assert_eq!(get_token(&store, id), Some("token-2".to_string()));
}

#[test]
fn auth_status_reflects_session() {
    let s = auth_status(Some("alice".to_string()));
    assert!(s.authenticated);
    assert_eq!(s.username, Some("alice".to_string()));
    let n = auth_status(None);
    assert!(!n.authenticated);
    assert_eq!(n.username, None);
}

fn session_of(cookie: &str) -> Option<&str> {
    ghost_check::cookie::session_id_bounds(cookie).map(|(a, b)| &cookie[a..b])
}

#[test]
fn session_id_from_cookie_header() {
    assert_eq!(session_of("session_id=abc123"), Some("abc123"));
    assert_eq!(session_of("theme=dark; session_id=xyz ; other=1"), Some("xyz"));
    assert_eq!(session_of("a=1;  session_id=;b=2"), Some(""));
    assert_eq!(session_of("session_idx=1; session_id=2"), Some("2"));
    assert_eq!(session_of("theme=dark"), None);
    assert_eq!(session_of(""), None);
    assert_eq!(session_of("x=session_id=3"), None);
}

#[test]
fn base58_wallet_addresses() {
    assert_eq!(bs58_decode("11111111111111111111111111111111"), Some(vec![0u8; 32]));
    assert_eq!(
        bs58_decode("Ed25519SigVerify111111111111111111111111111"),
        Some(ghost_check::auth::ED25519_PROGRAM_ID.to_vec())
    );
    assert_eq!(bs58_decode("0OIl"), None);
    assert_eq!(bs58_decode("2"), None);
    assert_eq!(bs58_decode(""), None);
    assert_eq!(bs58_decode("111111111111111111111111111111111"), None);
}
