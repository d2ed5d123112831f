use apt_console::apt::{parse_apt_list, parse_apt_search, parse_apt_show, parse_size};

#[test]
fn test_parse_apt_show() {
    let output = r#"Package: vim
Version: 2:9.1.0016-1ubuntu7.9
Installed-Size: 4230 kB
Homepage: https://www.vim.org/
Description: Vi IMproved - enhanced vi editor
 Vim is an almost compatible version of the UNIX editor Vi.
 .
 Many new features have been added.
"#;
    let details = parse_apt_show(output);
    assert_eq!(details.url, "https://www.vim.org/");
    assert_eq!(details.size, 4331520); // 4230 * 1024
    assert!(details.description.contains("Vi IMproved - enhanced vi editor"));
    assert!(details.description.contains("Many new features have been added"));
}

#[test]
fn test_parse_apt_list() {
    let output = r#"
Listing...
adduser/noble,now 3.137ubuntu1 all [installed,automatic]
alsa-base/noble,now 1.0.25+dfsg-0ubuntu7 all [installed]
"#;
    let pkgs = parse_apt_list(output, "Installed");
    assert_eq!(pkgs.len(), 2);
    assert_eq!(pkgs[0].name, "adduser");
    assert_eq!(pkgs[0].version, "3.137ubuntu1");
    assert_eq!(pkgs[0].arch, "all");
    assert_eq!(pkgs[0].status, "Installed");

    assert_eq!(pkgs[1].name, "alsa-base");
}

#[test]
fn test_parse_apt_search() {
    let output = r#"
Sorting...
Full Text Search...
acr/noble 2.1.2-1 all
  autoconf like tool

aerc/noble-updates 0.17.0-1 amd64
  Pretty Good Email Client
"#;
    let pkgs = parse_apt_search(output);
    assert_eq!(pkgs.len(), 2);
    assert_eq!(pkgs[0].name, "acr");
    assert_eq!(pkgs[0].summary, "autoconf like tool");
    assert_eq!(pkgs[1].name, "aerc");
    assert_eq!(pkgs[1].summary, "Pretty Good Email Client");
}

#[test]
fn test_parse_apt_list_skips_short_lines() {
    let output = "WARNING: apt does not have a stable CLI interface\nbroken line\nzsh/noble 5.9-6ubuntu2 amd64 [installed]\n";
    let pkgs = parse_apt_list(output, "Installed");
    assert_eq!(pkgs.len(), 1);
    assert_eq!(pkgs[0].name, "zsh");
    assert_eq!(pkgs[0].data, "apt");
    assert_eq!(pkgs[0].id, "zsh;5.9-6ubuntu2;amd64;apt");
}

#[test]
fn test_parse_apt_show_license_defaults_to_unknown() {
    let details = parse_apt_show("Package: vim\n");
    assert_eq!(details.license, "Unknown");
    assert_eq!(details.size, 0);
    assert_eq!(details.url, "");
    assert_eq!(details.description, "");
}

#[test]
fn test_parse_apt_show_description_ends_at_unindented_line() {
    let output = "Description: first\n second line\nPackage: other\n more text\n";
    let details = parse_apt_show(output);
    assert_eq!(details.description, "first\nsecond line");
}

#[test]
fn test_parse_size_units() {
    assert_eq!(parse_size("4230 kB"), 4230 * 1024);
    assert_eq!(parse_size("10 KB"), 10 * 1024);
    assert_eq!(parse_size("3 MB"), 3 * 1024 * 1024);
    assert_eq!(parse_size("2 GB"), 2 * 1024 * 1024 * 1024);
    assert_eq!(parse_size("77 pings"), 77);
    assert_eq!(parse_size("77"), 77);
    assert_eq!(parse_size(""), 0);
    assert_eq!(parse_size("not-a-number kB"), 0);
    assert_eq!(parse_size("4.5 kB"), 0);
}
