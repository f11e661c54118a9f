use backend::models::phc::{lanes_in_bounds, MAX_LANES_DIGITS};
use backend::models::{CreateUser, NewUser, PasswordError, User};

fn stored(row: NewUser) -> User {
    User {
        id: "6f2c1c1e-0b7e-4f55-9d0a-3a1f6f0b8c11".to_string(),
        email: row.email,
        name: row.name,
        avatar_url: None,
        password_hash: row.password_hash,
        created_at: 0,
        updated_at: 0,
    }
}

fn alice(password: &str) -> CreateUser {
    CreateUser {
        email: "alice@example.com".to_string(),
        password: password.to_string(),
        name: Some("Alice".to_string()),
    }
}

#[test]
fn hash_then_verify_accepts_the_password() {
    for password in ["pw123", "", "päßwörd ✓", "a much longer pass phrase with spaces"] {
        let user = stored(User::create(alice(password)).unwrap());
        assert_eq!(user.verify_password(password), Ok(true));
    }
}

#[test]
fn verify_rejects_another_password() {
    let user = stored(User::create(alice("pw123")).unwrap());
    assert_eq!(user.verify_password("pw124"), Ok(false));
    assert_eq!(user.verify_password("PW123"), Ok(false));
    assert_eq!(user.verify_password("pw123 "), Ok(false));
    assert_eq!(user.verify_password(""), Ok(false));
}

#[test]
fn hashes_of_one_password_differ_and_both_verify() {
    let one = stored(User::create(alice("pw123")).unwrap());
    let two = stored(User::create(alice("pw123")).unwrap());
    assert_ne!(one.password_hash, two.password_hash);
    assert_eq!(one.verify_password("pw123"), Ok(true));
    assert_eq!(two.verify_password("pw123"), Ok(true));
}

#[test]
fn hash_is_a_phc_string_and_not_the_password() {
    let row = User::create(alice("pw123")).unwrap();
    assert!(row.password_hash.starts_with("$argon2id$v=19$m=19456,t=2,p=1$"));
    assert_ne!(row.password_hash, "pw123");
    assert!(!row.password_hash.contains("pw123"));
    let fields: Vec<&str> = row.password_hash.split('$').collect();
    assert_eq!(fields.len(), 6);
    assert_eq!(fields[4].len(), 22);
    assert_eq!(fields[5].len(), 43);
}

#[test]
fn create_keeps_email_and_name() {
    let row = User::create(alice("pw123")).unwrap();
    assert_eq!(row.email, "alice@example.com");
    assert_eq!(row.name, Some("Alice".to_string()));
    let row = NewUser::new(alice("pw123"), "hash".to_string());
    assert_eq!(
        row,
        NewUser {
            email: "alice@example.com".to_string(),
            name: Some("Alice".to_string()),
            password_hash: "hash".to_string(),
        }
    );
}

#[test]
fn malformed_hash_is_an_error() {
    for hash in ["not a hash", "", "pw123", "argon2id$v=19$m=19456,t=2,p=1$c2FsdHNhbHQ$aGFzaA"] {
        let user = stored(NewUser {
            email: "alice@example.com".to_string(),
            name: None,
            password_hash: hash.to_string(),
        });
        assert_eq!(user.verify_password("pw123"), Err(PasswordError::MalformedHash));
    }
}

#[test]
fn well_formed_hash_that_cannot_match_rejects() {
    for hash in ["$scrypt$ln=16,r=8,p=1$c2FsdHNhbHQ$aGFzaGhhc2hoYXNo", "$argon2id"] {
        let user = stored(NewUser {
            email: "alice@example.com".to_string(),
            name: None,
            password_hash: hash.to_string(),
        });
        assert_eq!(user.verify_password("pw123"), Ok(false));
    }
}

#[test]
fn verifies_a_reference_hash() {
    let user = stored(NewUser {
        email: "alice@example.com".to_string(),
        name: None,
        password_hash:
            "$argon2id$v=19$m=256,t=2,p=1$c29tZXNhbHQ$nf65EOgLrQMR/uIPnA4rEsF5h7TKyQwu9U1bMCHGi/4"
                .to_string(),
    });
    assert_eq!(user.verify_password("password"), Ok(true));
    assert_eq!(user.verify_password("differentpassword"), Ok(false));
    assert_eq!(user.verify_password(&user.password_hash), Ok(false));
}

#[test]
fn authenticate_returns_the_user_only_on_a_match() {
    let user = stored(User::create(alice("pw123")).unwrap());
    assert_eq!(User::authenticate(Some(user.clone()), "pw123"), Ok(Some(user.clone())));
    assert_eq!(User::authenticate(Some(user.clone()), "wrong"), Ok(None));
    assert_eq!(User::authenticate(None, "pw123"), Ok(None));
}

#[test]
fn authenticate_fails_on_a_corrupted_hash() {
    let mut user = stored(User::create(alice("pw123")).unwrap());
    user.password_hash = "corrupted".to_string();
    assert_eq!(
        User::authenticate(Some(user), "pw123"),
        Err(PasswordError::MalformedHash)
    );
}

#[test]
fn update_password_hashes_the_new_password() {
    let update = User::update_password("u-1".to_string(), "new secret").unwrap();
    assert_eq!(update.id, "u-1");
    assert_ne!(update.password_hash, "new secret");
    let user = stored(NewUser {
        email: "alice@example.com".to_string(),
        name: None,
        password_hash: update.password_hash,
    });
    assert_eq!(user.verify_password("new secret"), Ok(true));
    assert_eq!(user.verify_password("pw123"), Ok(false));
}

const DIGEST: &str = "nf65EOgLrQMR/uIPnA4rEsF5h7TKyQwu9U1bMCHGi/4";

fn with_params(params: &str) -> User {
    stored(NewUser {
        email: "alice@example.com".to_string(),
        name: None,
        password_hash: format!("$argon2id$v=19${}$c29tZXNhbHRzYWx0${}", params, DIGEST),
    })
}

#[test]
fn hashing_succeeds_on_ordinary_passwords() {
    for password in ["", "pw123", "a", "päßwörd ✓"] {
        assert!(User::create(alice(password)).is_ok(), "{:?}", password);
        assert!(User::update_password("u-1".to_string(), password).is_ok());
    }
    let long = "x".repeat(100_000);
    let user = stored(User::create(alice(&long)).unwrap());
    assert_eq!(user.verify_password(&long), Ok(true));
}

#[test]
fn own_hashes_pass_the_lanes_test() {
    let row = User::create(alice("pw123")).unwrap();
    assert!(lanes_in_bounds(&row.password_hash));
}

#[test]
fn hash_with_too_many_lanes_verifies_nothing() {
    for lanes in ["536870912", "536870913", "4294967295", "100000000", "999999999", "123456789012"] {
        let user = with_params(&format!("m=19456,t=2,p={}", lanes));
        assert!(!lanes_in_bounds(&user.password_hash), "{}", lanes);
        assert_eq!(user.verify_password("password"), Ok(false), "{}", lanes);
        let first = with_params(&format!("p={},m=19456,t=2", lanes));
        assert!(!lanes_in_bounds(&first.password_hash), "{}", lanes);
        assert_eq!(first.verify_password("password"), Ok(false), "{}", lanes);
        assert_eq!(User::authenticate(Some(first), "password"), Ok(None), "{}", lanes);
    }
}

#[test]
fn hash_with_lanes_of_eight_digits_reaches_the_verifier() {
    for lanes in ["99999999", "16777215", "16777216", "2"] {
        let user = with_params(&format!("m=19456,t=2,p={}", lanes));
        assert!(lanes_in_bounds(&user.password_hash), "{}", lanes);
        assert_eq!(user.verify_password("password"), Ok(false), "{}", lanes);
    }
    let reference = with_params("m=256,t=2,p=1");
    assert!(lanes_in_bounds(&reference.password_hash));
}

#[test]
fn lanes_test_reads_only_the_lanes_parameter() {
    assert_eq!(MAX_LANES_DIGITS, 8);
    for ok in [
        "",
        "p=123456789",
        "$",
        "$p",
        "$p=",
        ",p=",
        "$p=12345678",
        "$p=12345678,m=123456789",
        "$argon2id$v=19$m=4294967295,t=4294967295,p=1$c2FsdA$aGFzaA",
        "$x$xp=123456789",
        "$x$P=123456789",
        "$x$p =123456789",
        "$x$p=12345678x9",
        "$x$p=1,p=12345678",
        "$p=é123456789",
    ] {
        assert!(lanes_in_bounds(ok), "{:?}", ok);
    }
    for bad in [
        "$p=123456789",
        ",p=123456789",
        "$x$m=1,p=1234567890$y",
        "$x$p=1,p=123456789",
        "$x$p=000000000",
        "é$p=123456789",
        "$p=12345678,p=123456789",
    ] {
        assert!(!lanes_in_bounds(bad), "{:?}", bad);
    }
}
