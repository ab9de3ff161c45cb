use berg_operator::error::Error;
use berg_operator::flag::content;
use berg_operator::flag::entropy::{random_entropy, substitute_entropy, substitute_entropy_with};
use berg_operator::flag::executable::{self, generate_elf_executable};
use berg_operator::model::{ContentFlag, ExecutableFlag};

#[test]
fn test_entropy_substitution() {
    let path = "/home/ctf/{entropy}/flag.txt";
    let result = substitute_entropy(path);
    assert!(result.contains("/home/ctf/"));
    assert!(!result.contains("{entropy}"));
    let parts: Vec<&str> = result.split('/').collect();
    assert_eq!(parts[3].len(), 12);
    assert!(parts[3].chars().all(|c| c.is_ascii_hexdigit()));
}

#[test]
fn test_no_entropy() {
    let path = "/home/ctf/flag.txt";
    assert_eq!(substitute_entropy(path), path);
}

#[test]
fn entropy_is_twelve_lowercase_hex_digits() {
    let e = random_entropy();
    assert_eq!(e.len(), 12);
    assert!(e.chars().all(|c| c.is_ascii_digit() || ('a'..='f').contains(&c)));
}

#[test]
fn substitution_grows_by_three_characters() {
    let path = "/srv/{entropy}/flag.txt";
    let result = substitute_entropy(path);
    assert_eq!(result.len(), path.len() - 9 + 12);
    assert!(result.starts_with("/srv/"));
    assert!(result.ends_with("/flag.txt"));
}

#[test]
fn substitution_with_given_entropy_replaces_every_placeholder() {
    assert_eq!(substitute_entropy_with("/a/{entropy}/b", "0123456789ab"), "/a/0123456789ab/b");
    assert_eq!(substitute_entropy_with("{entropy}{entropy}", "x"), "xx");
    assert_eq!(substitute_entropy_with("{entr{entropy}opy}", "0"), "{entr0opy}");
    assert_eq!(substitute_entropy_with("", "0"), "");
    assert_eq!(substitute_entropy_with("/srv/flag", "0"), "/srv/flag");
}

#[test]
fn test_generate_elf_executable() {
    let flag = "flag{test_flag}";
    let elf = generate_elf_executable(flag).unwrap();
    assert_eq!(&elf[0..4], &[0x7f, 0x45, 0x4c, 0x46]);
    assert_eq!(elf[4], 0x02);
    assert_eq!(elf[5], 0x01);
    assert_eq!(&elf[16..18], &[0x02, 0x00]);
    assert_eq!(&elf[18..20], &[0x3e, 0x00]);
}

#[test]
fn test_generate_elf_various_lengths() {
    let flags = vec!["flag{a}", "flag{short}", "flag{this_is_a_longer_flag_for_testing}", "flag{🚩}"];
    for flag in flags {
        let elf = generate_elf_executable(flag).unwrap();
        assert!(elf.len() > 120);
        assert!(elf.len() >= 120 + flag.len());
    }
}

fn le64(b: &[u8]) -> u64 {
    let mut a = [0u8; 8];
    a.copy_from_slice(b);
    u64::from_le_bytes(a)
}

#[test]
fn elf_layout_matches_the_flag() {
    let flag = "flag{🚩}";
    let elf = generate_elf_executable(flag).unwrap();
    let n = flag.len() as u64;
    assert_eq!(elf.len() as u64, 0x78 + 45 + n);
    assert_eq!(le64(&elf[24..32]), 0x400078);
    assert_eq!(le64(&elf[32..40]), 64);
    assert_eq!(&elf[52..58], &[0x40, 0x00, 0x38, 0x00, 0x01, 0x00]);
    assert_eq!(&elf[64..72], &[1, 0, 0, 0, 5, 0, 0, 0]);
    assert_eq!(le64(&elf[80..88]), 0x400000);
    assert_eq!(le64(&elf[96..104]), 0x78 + 45 + n);
    assert_eq!(le64(&elf[104..112]), 0x78 + 45 + n);
    assert_eq!(le64(&elf[112..120]), 0x1000);
    assert_eq!(&elf[120..123], &[0x48, 0xc7, 0xc0]);
    assert_eq!(&elf[134..136], &[0x48, 0xbe]);
    assert_eq!(le64(&elf[136..144]), 0x400000 + 0x78 + 45);
    assert_eq!(&elf[144..147], &[0x48, 0xc7, 0xc2]);
    assert_eq!(&elf[147..151], &(n as u32).to_le_bytes());
    assert_eq!(&elf[163..165], &[0x0f, 0x05]);
    assert_eq!(&elf[165..], flag.as_bytes());
}

#[test]
fn content_volume_defaults_to_read_only_0444() {
    let config = ContentFlag { path: "/srv/{entropy}/flag.txt".to_string(), mode: None };
    let v = content::build_volume_mount(&config, "flag{abc}").unwrap();
    assert_eq!(v.volume_name, "flag-content");
    assert_eq!(v.config_map_name, "flag-content");
    assert_eq!(v.key, "content");
    assert_eq!(v.file_name, "flag.txt");
    assert_eq!(v.sub_path, "flag.txt");
    assert_eq!(v.default_mode, 0o444);
    assert_eq!(v.item_mode, None);
    assert!(v.read_only);
    let parts: Vec<&str> = v.mount_path.split('/').collect();
    assert_eq!(parts.len(), 4);
    assert_eq!(parts[1], "srv");
    assert_eq!(parts[2].len(), 12);
    assert!(parts[2].chars().all(|c| c.is_ascii_digit() || ('a'..='f').contains(&c)));
    assert_eq!(parts[3], "flag.txt");
}

#[test]
fn executable_volume_defaults_to_0555_and_keeps_a_given_mode() {
    let config = ExecutableFlag { path: "/bin/flag".to_string(), mode: None };
    let v = executable::build_volume_mount(&config, "flag{abc}").unwrap();
    assert_eq!(v.volume_name, "flag-executable");
    assert_eq!(v.key, "executable");
    assert_eq!(v.mount_path, "/bin/flag");
    assert_eq!(v.sub_path, "flag");
    assert_eq!(v.default_mode, 0o555);
    assert!(v.read_only);
    let config = ExecutableFlag { path: "/bin/flag".to_string(), mode: Some(0o500) };
    let v = executable::build_volume_mount(&config, "flag{abc}").unwrap();
    assert_eq!(v.default_mode, 0o500);
    assert_eq!(v.item_mode, Some(0o500));
}

#[test]
fn flag_path_without_file_name_is_rejected() {
    let config = ContentFlag { path: "/".to_string(), mode: None };
    let r = content::build_volume_mount(&config, "flag{abc}");
    assert!(matches!(r, Err(Error::FlagGenerationError(_))));
}

#[test]
fn every_placeholder_is_replaced() {
    let path = "/{entropy}/a/{entropy}/b";
    let result = substitute_entropy(path);
    assert_eq!(result.len(), path.len() + 2 * 3);
    assert!(!result.contains("{entropy}"));
    let parts: Vec<&str> = result.split('/').collect();
    assert_eq!(parts[1], parts[3]);
    assert_eq!(parts[1].len(), 12);
}
