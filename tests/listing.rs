use blick::cli::{exit_code, version_text, Action, Cli, ListError};
use blick::entry::{classify, format_line, paint, render_entry, EntryKind, EntryMeta};
use blick::listing::{header_line, list_lines};
use blick::owner::{get_owner_and_group, name_or_id};
use blick::perms::get_rwx_string;
use blick::size::size_text;
use blick::text::{decimal_string, pad_left_string, pad_right_string};

const NO_SUCH_UID: u32 = 3_999_999_991;
const NO_SUCH_GID: u32 = 3_999_999_993;

fn meta(path: &str, is_dir: bool, size: u64, mode: u32) -> EntryMeta {
    EntryMeta {
        path: path.to_string(),
        is_dir,
        size,
        mode,
        uid: NO_SUCH_UID,
        gid: NO_SUCH_GID,
    }
}

#[test]
fn rwx_common_modes() {
    assert_eq!(get_rwx_string(0o755), "rwxr-xr-x");
    assert_eq!(get_rwx_string(0o644), "rw-r--r--");
    assert_eq!(get_rwx_string(0o777), "rwxrwxrwx");
    assert_eq!(get_rwx_string(0), "---------");
}

#[test]
fn rwx_ignores_file_type_bits() {
    assert_eq!(get_rwx_string(0o100640), "rw-r-----");
    assert_eq!(get_rwx_string(0o040711), "rwx--x--x");
}

#[test]
fn rwx_each_bit_alone() {
    let letters = ['r', 'w', 'x'];
    for j in 0..9u32 {
        let s: Vec<char> = get_rwx_string(0o400 >> j).chars().collect();
        assert_eq!(s.len(), 9);
        for (p, c) in s.iter().enumerate() {
            if p as u32 == j {
                assert_eq!(*c, letters[p % 3]);
            } else {
                assert_eq!(*c, '-');
            }
        }
    }
}

#[test]
fn size_zero_and_small() {
    assert_eq!(size_text(0), "0 B");
    assert_eq!(size_text(1), "1 B");
    assert_eq!(size_text(1023), "1023 B");
}

#[test]
fn size_next_tier_at_1024() {
    assert_eq!(size_text(1024), "1.0 KiB");
    assert_eq!(size_text(1536), "1.5 KiB");
    assert_eq!(size_text(1024 * 1024), "1.0 MiB");
}

#[test]
fn decimal_numerals() {
    assert_eq!(decimal_string(0), "0");
    assert_eq!(decimal_string(7), "7");
    assert_eq!(decimal_string(1000), "1000");
    assert_eq!(decimal_string(u64::MAX), "18446744073709551615");
}

#[test]
fn padding() {
    assert_eq!(pad_left_string("1 B", 7), "    1 B");
    assert_eq!(pad_left_string("1023.9 KiB", 7), "1023.9 KiB");
    assert_eq!(pad_right_string("root", 6), "root  ");
    assert_eq!(pad_right_string("äö", 6), "äö    ");
    assert_eq!(pad_right_string("postgres", 6), "postgres");
    assert_eq!(pad_left_string("", 0), "");
}

#[test]
fn unknown_id_falls_back_to_number() {
    assert_eq!(name_or_id(None, 4242), "4242");
    assert_eq!(name_or_id(None, 0), "0");
    assert_eq!(name_or_id(Some("alice".to_string()), 4242), "alice");
}

#[test]
fn owner_and_group_of_unknown_ids() {
    let (user, group) = get_owner_and_group(NO_SUCH_UID, NO_SUCH_GID);
    assert_eq!(user, NO_SUCH_UID.to_string());
    assert_eq!(group, NO_SUCH_GID.to_string());
}

#[test]
fn classify_kinds() {
    assert_eq!(classify("./src", true), EntryKind::Directory);
    assert_eq!(classify("./.git", true), EntryKind::Directory);
    assert_eq!(classify("./.bashrc", false), EntryKind::Hidden);
    assert_eq!(classify("./a.txt", false), EntryKind::Regular);
    assert_eq!(classify("./dir/.x", false), EntryKind::Hidden);
    assert_eq!(classify("./.dir/x", false), EntryKind::Regular);
    assert_eq!(classify(".profile", false), EntryKind::Hidden);
    assert_eq!(classify("", false), EntryKind::Regular);
}

#[test]
fn paint_keeps_text() {
    let cases = [
        (EntryKind::Directory, "\u{1b}[1;35m./x\u{1b}[0m"),
        (EntryKind::Hidden, "\u{1b}[33m./x\u{1b}[0m"),
        (EntryKind::Regular, "\u{1b}[37m./x\u{1b}[0m"),
    ];
    for (kind, styled) in cases {
        let p = paint("./x", kind);
        assert!(p == "./x" || p == styled);
    }
}

#[test]
fn line_layout() {
    assert_eq!(
        format_line("4.0 KiB", EntryKind::Directory, "./src", "rwxr-xr-x", "root", "wheel"),
        "4.0 KiB\t=> ./src\t <= rwxr-xr-x | u: root   | g: wheel "
    );
    assert_eq!(
        format_line("0 B", EntryKind::Hidden, "./.env", "rw-------", "postgres", "1000"),
        "    0 B\t-> ./.env\t <- rw------- | u: postgres | g: 1000  "
    );
}

#[test]
fn rendered_entry_fields() {
    let line = render_entry(&meta("./a", false, 2048, 0o644));
    assert!(line.starts_with("2.0 KiB\t-> "));
    assert!(line.ends_with(&format!(
        "\t <- rw-r--r-- | u: {} | g: {}",
        NO_SUCH_UID, NO_SUCH_GID
    )));
}

#[test]
fn kinds_render_apart() {
    let dir = render_entry(&meta("./d", true, 4096, 0o755));
    let hidden = render_entry(&meta("./.h", false, 10, 0o644));
    let regular = render_entry(&meta("./r", false, 10, 0o644));
    assert!(dir.contains("\t=> ") && dir.contains("\t <= "));
    assert!(hidden.contains("\t-> ") && hidden.contains("\t <- "));
    assert!(regular.contains("\t-> ") && regular.contains("\t <- "));
    assert_ne!(dir, hidden);
    assert_ne!(hidden, regular);
    assert_ne!(dir, regular);
}

#[test]
fn one_header_then_one_line_per_entry() {
    let entries = vec![
        meta("./a", false, 1, 0o644),
        meta("./b", true, 4096, 0o755),
        meta("./.c", false, 0, 0o600),
    ];
    let lines = list_lines("/home/u/work", &entries);
    assert_eq!(lines.len(), 4);
    assert!(lines[0].starts_with('\n'));
    assert!(lines[0].contains("/home/u/work"));
    for (i, e) in entries.iter().enumerate() {
        assert_eq!(lines[i + 1], render_entry(e));
    }
}

#[test]
fn empty_directory_lists_header_only() {
    let lines = list_lines("/", &Vec::new());
    assert_eq!(lines.len(), 1);
    assert_eq!(lines[0], header_line("/"));
}

#[test]
fn version_flag_skips_listing() {
    let cli = Cli {
        version: true,
        files: true,
        directories: true,
        absolute_paths: true,
    };
    assert_eq!(cli.action(), Action::ShowVersion);
    assert_eq!(exit_code(&Ok(())), 0);
    let plain = Cli {
        version: false,
        files: false,
        directories: false,
        absolute_paths: false,
    };
    assert_eq!(plain.action(), Action::List);
}

#[test]
fn version_line() {
    assert_eq!(version_text("blick", "0.1.0"), "blick-v0.1.0");
}

#[test]
fn errors_exit_with_one() {
    let errs = [
        ListError::WorkingDirectoryUnreadable("gone".to_string()),
        ListError::EnumerationFailed("denied".to_string()),
        ListError::MetadataUnreadable("vanished".to_string()),
    ];
    let texts = ["gone", "denied", "vanished"];
    for (e, t) in errs.into_iter().zip(texts) {
        assert_eq!(e.message(), t);
        assert_eq!(exit_code(&Err(e)), 1);
    }
}
