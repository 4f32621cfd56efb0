use recipe_final_exercise::cookies::Cookies;

fn jar(text: &str) -> Cookies {
    Cookies::new(text.to_string())
}

#[test]
fn get_finds_a_cookie_among_others() {
    let cookies = jar("theme=dark; name=alice; token=abc123");
    assert_eq!(cookies.get("name"), Ok("alice".to_string()));
    assert_eq!(cookies.get("token"), Ok("abc123".to_string()));
    assert_eq!(cookies.get("theme"), Ok("dark".to_string()));
    assert_eq!(cookies.get("them"), Err(()));
    assert_eq!(cookies.get("ame"), Err(()));
    assert_eq!(cookies.get("missing"), Err(()));
}

#[test]
fn get_takes_the_first_cookie_of_a_name() {
    let cookies = jar("name=alice;name=bob");
    assert_eq!(cookies.get("name"), Ok("alice".to_string()));
}

#[test]
fn get_keeps_what_follows_the_first_equals_sign() {
    assert_eq!(jar("token=YWJj=").get("token"), Ok("YWJj=".to_string()));
    assert_eq!(jar("token=a=b=c").get("token"), Ok("a=b=c".to_string()));
    assert_eq!(jar("token=").get("token"), Ok(String::new()));
    assert_eq!(jar("token= abc ").get("token"), Ok(" abc ".to_string()));
    assert_eq!(jar("a=b=c").get("a=b"), Ok("b=c".to_string()));
}

#[test]
fn get_skips_whitespace_before_the_key_only() {
    assert_eq!(jar("  \t name=alice").get("name"), Ok("alice".to_string()));
    assert_eq!(jar("a=1;\u{a0}\u{2003}name=alice").get("name"), Ok("alice".to_string()));
    assert_eq!(jar("name =alice").get("name"), Err(()));
    assert_eq!(jar("x name=alice").get("name"), Err(()));
    assert_eq!(jar(" name=alice").get(" name"), Err(()));
}

#[test]
fn get_fails_without_a_matching_piece() {
    assert_eq!(jar("").get("name"), Err(()));
    assert_eq!(jar(";;;").get("name"), Err(()));
    assert_eq!(jar("name").get("name"), Err(()));
    assert_eq!(jar("nam=e").get("name"), Err(()));
    assert_eq!(jar("name;=alice").get("name"), Err(()));
    assert_eq!(jar("=alice").get(""), Ok("alice".to_string()));
    assert_eq!(jar("name=alice;").get("name"), Ok("alice".to_string()));
}

#[test]
fn get_reads_text_beyond_ascii() {
    let cookies = jar("név=Zoé; token=søren=œ");
    assert_eq!(cookies.get("név"), Ok("Zoé".to_string()));
    assert_eq!(cookies.get("token"), Ok("søren=œ".to_string()));
}

#[test]
fn credentials_need_both_cookies() {
    let both = jar("token=abc123; name=alice").credentials().unwrap();
    assert_eq!(both.name, "alice");
    assert_eq!(both.token, "abc123");
    assert!(jar("name=alice").credentials().is_err());
    assert!(jar("token=abc123").credentials().is_err());
    assert!(jar("").credentials().is_err());
}

#[test]
fn assign_lays_the_cookie_out() {
    assert_eq!(
        Cookies::assign("name", "alice", "2024-01-01T00:00:00Z"),
        "name=alice;expires=2024-01-01T00:00:00Z;path=/"
    );
    assert_eq!(Cookies::assign("", "", ""), "=;expires=;path=/");
}

#[test]
fn set_writes_the_expiration_in_rfc3339() {
    assert_eq!(
        Cookies::set("name", "alice", 0),
        Ok("name=alice;expires=1970-01-01T00:00:00Z;path=/".to_string())
    );
    assert_eq!(
        Cookies::set("token", "abc123", 1_702_592_000_000),
        Ok("token=abc123;expires=2023-12-14T22:13:20Z;path=/".to_string())
    );
    assert_eq!(
        Cookies::set("token", "abc123", 1_702_592_000_123),
        Ok("token=abc123;expires=2023-12-14T22:13:20.123Z;path=/".to_string())
    );
}

#[test]
fn set_fails_for_an_instant_without_rfc3339_text() {
    assert_eq!(Cookies::set("name", "alice", i64::MAX), Err(()));
    assert_eq!(Cookies::set_credentials("alice", "abc123", i64::MAX), Err(()));
}

#[test]
fn set_credentials_gives_name_then_token() {
    assert_eq!(
        Cookies::set_credentials("alice", "abc123", 0),
        Ok((
            "name=alice;expires=1970-01-01T00:00:00Z;path=/".to_string(),
            "token=abc123;expires=1970-01-01T00:00:00Z;path=/".to_string()
        ))
    );
}

#[test]
fn credentials_written_are_read_back() {
    let (first, second) = Cookies::set_credentials("alice", "YWJj+/8=", 0).unwrap();
    let name = first.split(';').next().unwrap();
    let token = second.split(';').next().unwrap();
    let read = jar(&format!("{}; {}", name, token)).credentials().unwrap();
    assert_eq!(read.name, "alice");
    assert_eq!(read.token, "YWJj+/8=");
}
