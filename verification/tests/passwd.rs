use garthen::exchange::{Answer, Query};
use garthen::passwd::{answer_locally, check_costs, hash, settle, verify};
use garthen::snowflake::{generate, init};

fn bits_of_origin(id: i64) -> i64 {
    (id >> 12) & 0x3ff
}

#[test]
fn test() {
    let password = "SuPeR SeCrEt pAsSw0rD";
    let password_hash = hash(password).expect("Failed to hash password");

    verify(password, &password_hash).expect("Entered password is incorrect");
}

/// A hash of the password `password`, made with little memory.
const KNOWN_HASH: &str =
    "$argon2id$v=19$m=256,t=2,p=1$c29tZXNhbHQ$nf65EOgLrQMR/uIPnA4rEsF5h7TKyQwu9U1bMCHGi/4";

#[test]
fn known_hash_verifies_its_password_only() {
    assert!(verify("password", KNOWN_HASH).is_ok());
    assert!(verify("Password", KNOWN_HASH).is_err());
    assert!(verify("", KNOWN_HASH).is_err());
    assert!(verify(KNOWN_HASH, KNOWN_HASH).is_err());
    let mut forged = KNOWN_HASH.to_string();
    forged.pop();
    forged.push('5');
    assert!(verify("password", &forged).is_err());
}

#[test]
fn hash_names_its_parameters() {
    let password_hash = hash("SuPeR SeCrEt pAsSw0rD").unwrap();
    assert!(password_hash.starts_with("$argon2id$v=19$m=65536,t=8,p=4$"));
    assert_ne!(password_hash, "SuPeR SeCrEt pAsSw0rD");
    assert_eq!(password_hash.split('$').count(), 6);
}

#[test]
fn what_is_no_hash_does_not_verify() {
    let failure = verify("password", "no hash at all").unwrap_err();
    assert!(!failure.description.is_empty());
    assert!(verify("password", "").is_err());
    assert!(verify("password", "password").is_err());
}

#[test]
fn password_queries_are_answered_locally() {
    let password_hash = match answer_locally(&Query::PasswordHash {
        password: "correct horse".to_string(),
    }) {
        Some(Answer::Text(hashed)) => hashed,
        other => panic!("unexpected answer {:?}", other),
    };
    assert!(password_hash.starts_with("$argon2id$"));
    let verdict = answer_locally(&Query::PasswordVerify {
        password: "password".to_string(),
        password_hash: KNOWN_HASH.to_string(),
    });
    assert!(matches!(verdict, Some(Answer::Verdict(true))));
    let verdict = answer_locally(&Query::PasswordVerify {
        password: "battery staple".to_string(),
        password_hash: KNOWN_HASH.to_string(),
    });
    assert!(matches!(verdict, Some(Answer::Verdict(false))));
}

#[test]
fn other_queries_are_left_to_the_caller() {
    let verdict = answer_locally(&Query::PasswordVerify {
        password: "battery staple".to_string(),
        password_hash: "no hash at all".to_string(),
    });
    assert!(matches!(verdict, Some(Answer::Verdict(false))));
    assert!(answer_locally(&Query::Clock).is_none());
    assert!(answer_locally(&Query::UserById { id: 1 }).is_none());
}

#[test]
fn generate_id() {
    let mut generator = init(0, 0);

    generate(&mut generator);
}

#[test]
fn ids_name_machine_and_node_and_do_not_repeat() {
    let mut generator = init(3, 5);
    assert_eq!((generator.machine_id(), generator.node_id()), (3, 5));
    let mut seen = std::collections::HashSet::new();
    for _ in 0..5000 {
        let id = generate(&mut generator);
        assert!(id > 0);
        assert_eq!((id >> 12) & 0x3ff, 3 * 32 + 5);
        assert!(seen.insert(id));
    }
    assert_eq!((generator.machine_id(), generator.node_id()), (3, 5));
}

#[test]
fn answers_of_the_hasher_are_settled() {
    let given = settle(Ok("hash".to_string()));
    assert_eq!(given.unwrap(), "hash");
    let nothing: Result<(), _> = settle(Ok(()));
    assert!(nothing.is_ok());
    let refused: Result<String, _> = settle(Err(argon2::password_hash::Error::Password));
    assert_eq!(refused.unwrap_err().description, "invalid password");
    let broken: Result<(), _> = settle(Err(argon2::password_hash::Error::PhcStringField));
    assert!(!broken.unwrap_err().description.is_empty());
}

#[test]
fn ids_name_every_machine_and_node_that_fits() {
    for (machine_id, node_id) in [(0, 0), (0, 31), (31, 0), (31, 31), (17, 9)] {
        let mut generator = init(machine_id, node_id);
        for _ in 0..3 {
            let id = generate(&mut generator);
            assert_eq!(bits_of_origin(id), (machine_id * 32 + node_id) as i64);
            assert_eq!((id / 4096) % 1024, (machine_id * 32 + node_id) as i64);
        }
    }
}

#[test]
fn hashes_that_name_too_many_lanes_are_not_tried() {
    let tail = "$c29tZXNhbHQ$nf65EOgLrQMR/uIPnA4rEsF5h7TKyQwu9U1bMCHGi/4";
    for lanes in ["16777216", "536870912", "4294967295", "99999999999999999999", "016777216"] {
        let hash = format!("$argon2id$v=19$m=256,t=2,p={lanes}{tail}");
        assert!(!check_costs(&hash), "{lanes}");
        let refused = verify("password", &hash).unwrap_err();
        assert_eq!(refused.description, "too many lanes");
        let first = format!("$argon2id$v=19$p={lanes},m=256,t=2{tail}");
        assert!(!check_costs(&first), "{lanes}");
        assert!(verify("password", &first).is_err());
    }
    for lanes in ["1", "4", "16777215", "0", "", "x", "4x"] {
        let hash = format!("$argon2id$v=19$m=256,t=2,p={lanes}{tail}");
        assert!(check_costs(&hash), "{lanes}");
    }
    assert!(check_costs(""));
    assert!(check_costs("p=99999999999"));
    assert!(check_costs("xp=99999999999"));
    assert!(check_costs("$p"));
    assert!(check_costs("жp=99999999999"));
    assert!(!check_costs(",p=99999999999"));
    assert!(check_costs(KNOWN_HASH));
    assert!(verify("password", "$argon2id$v=19$m=256,t=2,p=16777215$c29tZXNhbHQ$nf65EOgLrQMR").is_err());
}
