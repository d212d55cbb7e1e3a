// Tests of the identity-source output parsers and string utilities.

use rcpdaemon::auth::identity::{
    parse_clean_lines, parse_groups_output, parse_listing_groups, parse_member_groups,
    parse_passwd_records, parse_real_name,
};
use rcpdaemon::auth::identity::{dedup_strings, parse_full_name, unix_groups_cascade};
use rcpdaemon::server::user::UserRole;
use rcpdaemon::auth::improved_native::classify_platform;
use rcpdaemon::auth::native::users_from_records;
use rcpdaemon::strutil::{
    parse_u32, split_char, split_words, str_eq, str_starts_with, trim_str, u64_to_string,
    vec_contains_str,
};

fn strings(v: &[&str]) -> Vec<String> {
    v.iter().map(|s| s.to_string()).collect()
}

#[test]
fn test_parse_groups_output_with_username_prefix() {
    let parsed = parse_groups_output("alice : wheel staff rcp-users\n");
    assert_eq!(parsed, strings(&["wheel", "staff", "rcp-users"]));
}

#[test]
fn test_parse_groups_output_plain_list() {
    let parsed = parse_groups_output("wheel operator users\n");
    assert_eq!(parsed, strings(&["wheel", "operator", "users"]));
    assert!(parse_groups_output("").is_empty());
}

#[test]
fn test_parse_member_groups_from_group_db() {
    let db = "wheel:x:10:alice,bob\nstaff:x:20:carol\nrcp-users:x:30: alice ,dave\n";
    let groups = parse_member_groups(db, "alice");
    assert_eq!(groups, strings(&["wheel", "rcp-users"]));
    assert!(parse_member_groups(db, "nobody-here").is_empty());
}

#[test]
fn test_parse_listing_groups_from_membership_dump() {
    let dump = "admin root alice\nstaff alice bob\nloners\nops carol\n";
    let groups = parse_listing_groups(dump, "alice");
    assert_eq!(groups, strings(&["admin", "staff"]));
}

#[test]
fn test_parse_clean_lines() {
    let parsed = parse_clean_lines("  Remote Users  \n\nAdministrators\n");
    assert_eq!(parsed, strings(&["Remote Users", "Administrators"]));
}

#[test]
fn test_parse_real_name() {
    let record = "UserShell: /bin/zsh\n  RealName:  Alice Liddell \nUniqueID: 501\n";
    assert_eq!(parse_real_name(record), Some("Alice Liddell".to_string()));
    assert_eq!(parse_real_name("UniqueID: 501\n"), None);
}

#[test]
fn test_parse_passwd_records_and_listing() {
    let passwd = "root:x:0:0:root:/root:/bin/bash\n\
                  _svc:x:1200:1200:Service:/var/empty:/usr/bin/false\n\
                  alice:x:1000:1000:Alice Liddell,,,:/home/alice:/bin/bash\n\
                  daemon:x:2:2:daemon:/sbin:/sbin/nologin\n\
                  bob:x:1001:1001::/home/bob:/bin/sh\n";
    let records = parse_passwd_records(passwd);
    assert_eq!(records.len(), 5);
    assert_eq!(records[2].username, "alice");
    assert_eq!(records[2].uid, 1000);
    assert_eq!(records[2].display_name, "Alice Liddell");
    // A row without a comment field falls back to the username.
    assert_eq!(records[4].display_name, "bob");

    // The listing drops system accounts and low uids.
    let users = users_from_records(&records);
    let names: Vec<&str> = users.iter().map(|u| u.username.as_str()).collect();
    assert_eq!(names, vec!["alice", "bob"]);
    assert_eq!(users[0].full_name, Some("Alice Liddell".to_string()));
}

#[test]
fn test_parse_u32_cases() {
    assert_eq!(parse_u32("0"), Some(0));
    assert_eq!(parse_u32("1000"), Some(1000));
    assert_eq!(parse_u32("4294967295"), Some(u32::MAX));
    assert_eq!(parse_u32("4294967296"), None);
    assert_eq!(parse_u32(""), None);
    assert_eq!(parse_u32("12a"), None);
    assert_eq!(parse_u32("-1"), None);
}

#[test]
fn test_split_and_trim() {
    assert_eq!(split_char("a:b::c", ':'), strings(&["a", "b", "", "c"]));
    assert_eq!(split_char("", ':'), strings(&[""]));
    assert_eq!(split_words("  a\tb \n c "), strings(&["a", "b", "c"]));
    assert_eq!(trim_str("  padded\t"), "padded");
    assert_eq!(trim_str("\n"), "");
}

#[test]
fn test_string_helpers() {
    assert!(str_eq("same", "same"));
    assert!(!str_eq("same", "Same"));
    assert!(str_starts_with("RealName: X", "RealName:"));
    assert!(!str_starts_with("Real", "RealName:"));
    let hay = strings(&["alpha", "beta"]);
    assert!(vec_contains_str(&hay, "beta"));
    assert!(!vec_contains_str(&hay, "gamma"));
}

#[test]
fn test_u64_rendering() {
    assert_eq!(u64_to_string(0), "0");
    assert_eq!(u64_to_string(42), "42");
    assert_eq!(u64_to_string(18446744073709551615), "18446744073709551615");
}

#[test]
fn test_unix_groups_cascade_stages() {
    // First stage: the per-user query answers.
    let groups = unix_groups_cascade("alice : wheel users\n", "", "", "", "alice");
    assert_eq!(groups, strings(&["wheel", "users"]));
    // Second stage: the group database answers.
    let groups = unix_groups_cascade("", "wheel:x:10:alice\n", "", "", "alice");
    assert_eq!(groups, strings(&["wheel"]));
    // Third stage: the id answer, without repeats.
    let groups = unix_groups_cascade("", "", "wheel users wheel\n", "", "alice");
    assert_eq!(groups, strings(&["wheel", "users"]));
    // Last stage: the raw group file.
    let groups = unix_groups_cascade("", "", "", "users:x:100:alice\n", "alice");
    assert_eq!(groups, strings(&["users"]));
    // Nothing answers: no groups.
    assert!(unix_groups_cascade("", "", "", "", "alice").is_empty());

    assert_eq!(
        dedup_strings(&strings(&["a", "b", "a", "c", "b"])),
        strings(&["a", "b", "c"])
    );
}

#[test]
fn test_classify_platform() {
    assert_eq!(classify_platform(Some("Linux"), false, false, false, false, false), "Linux");
    assert_eq!(classify_platform(Some("Darwin"), false, false, false, false, false), "macOS");
    assert_eq!(classify_platform(Some("SunOS"), false, false, false, false, false), "Solaris");
    assert_eq!(classify_platform(Some("FreeBSD"), false, false, false, false, false), "FreeBSD");
    assert_eq!(classify_platform(Some(""), true, false, false, false, false), "RedHat-based");
    assert_eq!(classify_platform(None, false, true, false, false, false), "Debian-based");
    assert_eq!(classify_platform(None, false, false, true, false, false), "Alpine");
    assert_eq!(classify_platform(None, false, false, false, true, false), "FreeBSD");
    assert_eq!(classify_platform(None, false, false, false, false, true), "BSD-variant");
    assert_eq!(classify_platform(None, false, false, false, false, false), "Unknown-Unix");
}

#[test]
fn test_parse_full_name() {
    let record = "User name                    alice\nFull Name                    Alice P Liddell\nComment\n";
    assert_eq!(parse_full_name(record), Some("Alice P Liddell".to_string()));
    // Fewer than three words on the line: no usable name.
    assert_eq!(parse_full_name("Full Name\n"), None);
    assert_eq!(parse_full_name("User name alice\n"), None);
}

#[test]
fn test_parse_role_names() {
    assert_eq!(UserRole::parse_role("admin").unwrap(), UserRole::Admin);
    assert_eq!(UserRole::parse_role("Admin").unwrap(), UserRole::Admin);
    assert_eq!(UserRole::parse_role("USER").unwrap(), UserRole::User);
    assert_eq!(UserRole::parse_role("Guest").unwrap(), UserRole::Guest);
    let err = UserRole::parse_role("operator").unwrap_err();
    assert!(err.message().contains("Invalid argument"));
    assert!(err.message().contains("operator"));
    assert_eq!("user".parse::<UserRole>().unwrap(), UserRole::User);
}
