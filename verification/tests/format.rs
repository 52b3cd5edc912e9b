use lstable::entry::FileType;
use lstable::entry::classify_type;
use lstable::entry::format_entry;
use lstable::entry::format_name;
use lstable::outcome::PathAction;
use lstable::outcome::decide_path_action;
use lstable::outcome::missing_message;
use lstable::outcome::unreadable_message;
use lstable::owner::owner_display;
use lstable::owner::uid_to_string;
use lstable::perm::format_permissions;
use lstable::perm::permission_body;
use lstable::perm::permission_cells;
use lstable::size::format_size;
use lstable::size::parse_file_size;
use lstable::style::Style;
use lstable::timefmt::format_modified;

#[test]
fn size_tier_boundaries() {
    assert_eq!(format_size(0, false).text, "0");
    assert_eq!(format_size(1023, false).text, "1023");
    assert_eq!(format_size(1024, false).text, "1k");
    assert_eq!(format_size(1024 * 1024, false).text, "1024k");
    assert_eq!(format_size(1024 * 1024 + 1, false).text, "1m");
}

#[test]
fn size_tier_styles() {
    assert_eq!(format_size(0, false).style, Style::Granted);
    assert_eq!(format_size(1023, false).style, Style::Granted);
    assert_eq!(format_size(1024, false).style, Style::Attention);
    assert_eq!(format_size(5 * 1024 * 1024, false).style, Style::Attention);
}

#[test]
fn size_rounding_half_away_from_zero() {
    assert_eq!(format_size(2048, false).text, "2k");
    assert_eq!(format_size(1536, false).text, "2k");
    assert_eq!(format_size(1535, false).text, "1k");
    assert_eq!(format_size(3 * 1024 * 1024, false).text, "3m");
}

#[test]
fn dir_size_placeholder() {
    assert_eq!(format_size(0, true).text, "-");
    assert_eq!(format_size(123456789, true).text, "-");
    assert_eq!(format_size(u64::MAX, true).text, "-");
    assert_eq!(format_size(0, true).style, Style::Info);
    assert_eq!(format_size(0, true).render(), "\u{1b}[36m-\u{1b}[39m");
}

#[test]
fn parse_file_size_styled() {
    assert_eq!(parse_file_size(500), "\u{1b}[32m500\u{1b}[39m");
    assert_eq!(parse_file_size(2048), "\u{1b}[93m2k\u{1b}[39m");
    assert_eq!(parse_file_size(1024 * 1024), "\u{1b}[93m1024k\u{1b}[39m");
}

#[test]
fn permission_body_bit_exact() {
    assert_eq!(permission_body(0o754), "rwxr-xr--");
    assert_eq!(permission_body(0o000), "---------");
    assert_eq!(permission_body(0o644), "rw-r--r--");
    assert_eq!(permission_body(0o600), "rw-------");
    assert_eq!(permission_body(0o755), "rwxr-xr-x");
    assert_eq!(permission_body(0o777), "rwxrwxrwx");
}

#[test]
fn permission_lead_marker() {
    let dir_cells = permission_cells(true, 0o000);
    assert_eq!(dir_cells[0].text, "d");
    assert_eq!(dir_cells[0].style, Style::Marker);
    let dir_cells_other_mode = permission_cells(true, 0o777);
    assert_eq!(dir_cells_other_mode[0].text, "d");
    assert_eq!(dir_cells_other_mode[0].style, Style::Marker);
    let file_cells = permission_cells(false, 0o777);
    assert_eq!(file_cells[0].text, ".");
    assert_eq!(file_cells[0].style, Style::Neutral);
}

#[test]
fn permission_cell_styles() {
    let cells = permission_cells(false, 0o644);
    assert_eq!(cells.len(), 10);
    // Owner triplet: read set (attention), write set (danger), execute clear.
    assert_eq!(cells[1].text, "r");
    assert_eq!(cells[1].style, Style::Attention);
    assert_eq!(cells[2].text, "w");
    assert_eq!(cells[2].style, Style::Danger);
    assert_eq!(cells[3].text, "-");
    assert_eq!(cells[3].style, Style::Muted);
    // Group and other set bits are uniformly granted.
    assert_eq!(cells[4].text, "r");
    assert_eq!(cells[4].style, Style::Granted);
    assert_eq!(cells[7].text, "r");
    assert_eq!(cells[7].style, Style::Granted);
}

#[test]
fn permission_styled_exact() {
    let expected = format!(
        "\u{1b}[1m{}{}{}{}{}{}{}{}{}{}\u{1b}[0m",
        "\u{1b}[37m.\u{1b}[39m",
        "\u{1b}[93mr\u{1b}[39m",
        "\u{1b}[91mw\u{1b}[39m",
        "\u{1b}[90m-\u{1b}[39m",
        "\u{1b}[32mr\u{1b}[39m",
        "\u{1b}[90m-\u{1b}[39m",
        "\u{1b}[90m-\u{1b}[39m",
        "\u{1b}[32mr\u{1b}[39m",
        "\u{1b}[90m-\u{1b}[39m",
        "\u{1b}[90m-\u{1b}[39m",
    );
    assert_eq!(format_permissions(false, 0o644), expected);
}

#[test]
fn owner_fallback_sentinel() {
    assert_eq!(owner_display(None), "User error");
    assert_eq!(owner_display(Some(String::from("alice"))), "alice");
    assert_ne!(owner_display(None), "");
}

#[test]
fn owner_lookup_against_system() {
    assert_eq!(uid_to_string(0), "root");
    assert_eq!(uid_to_string(u32::MAX - 1), "User error");
}

#[test]
fn name_fallback_placeholder() {
    let undecodable = format_name(None, false);
    assert_eq!(undecodable.text, "Unknown name");
    assert_eq!(undecodable.style, Style::Neutral);
    let plain = format_name(Some(String::from("notes.txt")), false);
    assert_eq!(plain.text, "notes.txt");
    assert_eq!(plain.style, Style::Neutral);
    let dir = format_name(Some(String::from("docs")), true);
    assert_eq!(dir.text, "docs");
    assert_eq!(dir.style, Style::Accent);
    assert_eq!(dir.render(), "\u{1b}[1m\u{1b}[34mdocs\u{1b}[39m\u{1b}[0m");
}

#[test]
fn modified_rendering() {
    assert_eq!(format_modified(None), "");
    assert_eq!(format_modified(Some(0)), " 1 Jan 00:00");
    assert_eq!(format_modified(Some(1718357520)), "14 Jun 09:32");
}

#[test]
fn type_tags() {
    assert_eq!(classify_type(false), FileType::File);
    assert_eq!(classify_type(true), FileType::Dir);
    assert_eq!(classify_type(false).label(), "File");
    assert_eq!(classify_type(true).label(), "Dir");
}

#[test]
fn three_entry_scenario() {
    let small = format_entry(
        Some(String::from("a.txt")),
        false,
        500,
        0o644,
        String::from("root"),
        Some(0),
    );
    let medium = format_entry(
        Some(String::from("b.bin")),
        false,
        2048,
        0o600,
        String::from("root"),
        Some(0),
    );
    let sub = format_entry(
        Some(String::from("sub")),
        true,
        4096,
        0o755,
        String::from("root"),
        Some(0),
    );

    assert_eq!(small.length, "\u{1b}[32m500\u{1b}[39m");
    assert_eq!(medium.length, "\u{1b}[93m2k\u{1b}[39m");
    assert_eq!(sub.length, "\u{1b}[36m-\u{1b}[39m");

    assert_eq!(permission_body(0o644), "rw-r--r--");
    assert_eq!(permission_body(0o600), "rw-------");
    assert_eq!(permission_body(0o755), "rwxr-xr-x");

    assert_eq!(small.e_type, FileType::File);
    assert_eq!(medium.e_type, FileType::File);
    assert_eq!(sub.e_type, FileType::Dir);

    assert_eq!(small.owner, "root");
    assert_eq!(small.name, "\u{1b}[37ma.txt\u{1b}[39m");
    assert_eq!(sub.name, "\u{1b}[1m\u{1b}[34msub\u{1b}[39m\u{1b}[0m");
}

#[test]
fn formatting_twice_is_identical() {
    let first = format_entry(
        Some(String::from("same.txt")),
        false,
        1234,
        0o640,
        String::from("root"),
        Some(1718357520),
    );
    let second = format_entry(
        Some(String::from("same.txt")),
        false,
        1234,
        0o640,
        String::from("root"),
        Some(1718357520),
    );
    assert_eq!(first.permissions, second.permissions);
    assert_eq!(first.length, second.length);
    assert_eq!(first.owner, second.owner);
    assert_eq!(first.name, second.name);
    assert_eq!(first.e_type, second.e_type);
    assert_eq!(first.modified, second.modified);
}

#[test]
fn path_outcomes() {
    assert_eq!(decide_path_action(Some(true)), PathAction::List);
    assert_eq!(decide_path_action(Some(false)), PathAction::ReportMissing);
    assert_eq!(decide_path_action(None), PathAction::ReportUnreadable);
    assert_eq!(missing_message(), "Path does not exist");
    assert_eq!(unreadable_message(), "Error reading directory");
}
