use cloudflare_ddns::cli::{
    parse, read_file, resolve, CloudflareArgs, Domain, Email, FileRead, FileReads, Parameters, Token,
};
use cloudflare_ddns::error::Error;

fn s(text: &str) -> String {
    text.to_string()
}

fn inline_args(domain: &str, email: &str, token: &str) -> CloudflareArgs {
    CloudflareArgs {
        domain: Domain { domain_inline: Some(s(domain)), domain_file: None },
        email: Email { email_inline: Some(s(email)), email_file: None },
        token: Token { token_inline: Some(s(token)), token_file: None },
    }
}

fn file_args() -> CloudflareArgs {
    CloudflareArgs {
        domain: Domain { domain_inline: None, domain_file: Some(s("/run/domain")) },
        email: Email { email_inline: None, email_file: Some(s("/run/email")) },
        token: Token { token_inline: None, token_file: Some(s("/run/token")) },
    }
}

fn no_reads() -> FileReads {
    FileReads { domain: FileRead::Missing, email: FileRead::Missing, token: FileRead::Missing }
}

#[test]
fn inline_values_are_returned_unchanged() {
    let got = parse(inline_args("example.com", "me@example.com", "secret\n"), no_reads()).unwrap();
    assert_eq!(
        got,
        Parameters { domain: s("example.com"), email: s("me@example.com"), token: s("secret\n") }
    );
}

#[test]
fn inline_values_ignore_the_files() {
    let reads = FileReads {
        domain: FileRead::Content(s("other.org\n")),
        email: FileRead::Failed(s("denied")),
        token: FileRead::Content(s("")),
    };
    let got = parse(inline_args("a", "b", "c"), reads).unwrap();
    assert_eq!(got, Parameters { domain: s("a"), email: s("b"), token: s("c") });
}

#[test]
fn inline_empty_value_is_kept() {
    let got = parse(inline_args("", "b", "c"), no_reads()).unwrap();
    assert_eq!(got.domain, "");
}

#[test]
fn file_with_final_newline_loses_it() {
    assert_eq!(read_file(s("p"), FileRead::Content(s("x\n"))).unwrap(), "x");
}

#[test]
fn file_without_final_newline_is_kept_whole() {
    assert_eq!(read_file(s("p"), FileRead::Content(s("x"))).unwrap(), "x");
}

#[test]
fn file_loses_one_newline_only() {
    assert_eq!(read_file(s("p"), FileRead::Content(s("x\n\n"))).unwrap(), "x\n");
    assert_eq!(read_file(s("p"), FileRead::Content(s("\n\n"))).unwrap(), "\n");
}

#[test]
fn file_keeps_inner_newlines_and_other_characters() {
    assert_eq!(read_file(s("p"), FileRead::Content(s("a\nb\r\n"))).unwrap(), "a\nb\r");
    assert_eq!(read_file(s("p"), FileRead::Content(s("clé\n"))).unwrap(), "clé");
}

#[test]
fn file_with_only_a_newline_is_empty() {
    let err = read_file(s("/etc/token"), FileRead::Content(s("\n"))).unwrap_err();
    assert!(matches!(err, Error::FileIsEmpty(ref p) if p == "/etc/token"));
}

#[test]
fn file_with_nothing_is_empty() {
    let err = read_file(s("/etc/token"), FileRead::Content(s(""))).unwrap_err();
    assert!(matches!(err, Error::FileIsEmpty(ref p) if p == "/etc/token"));
}

#[test]
fn missing_file_is_not_found() {
    let err = read_file(s("/nowhere"), FileRead::Missing).unwrap_err();
    assert!(matches!(err, Error::FileNotFound(ref p) if p == "/nowhere"));
}

#[test]
fn unreadable_file_is_an_io_error() {
    let err = read_file(s("/locked"), FileRead::Failed(s("permission denied"))).unwrap_err();
    assert!(matches!(err, Error::Io(ref cause) if cause == "permission denied"));
}

#[test]
fn resolve_prefers_the_inline_value() {
    let got = resolve(Some(s("inline")), Some(s("/p")), FileRead::Content(s("file\n"))).unwrap();
    assert_eq!(got, "inline");
}

#[test]
fn resolve_reads_the_file_without_an_inline_value() {
    let got = resolve(None, Some(s("/p")), FileRead::Content(s("file\n"))).unwrap();
    assert_eq!(got, "file");
}

#[test]
fn parse_resolves_all_three_from_files() {
    let reads = FileReads {
        domain: FileRead::Content(s("example.com\n")),
        email: FileRead::Content(s("me@example.com\n")),
        token: FileRead::Content(s("t0k3n")),
    };
    let got = parse(file_args(), reads).unwrap();
    assert_eq!(
        got,
        Parameters { domain: s("example.com"), email: s("me@example.com"), token: s("t0k3n") }
    );
}

#[test]
fn parse_mixes_inline_and_file() {
    let mut args = file_args();
    args.email = Email { email_inline: Some(s("me@example.com")), email_file: None };
    let reads = FileReads {
        domain: FileRead::Content(s("example.com\n")),
        email: FileRead::Missing,
        token: FileRead::Content(s("t\n")),
    };
    let got = parse(args, reads).unwrap();
    assert_eq!(got, Parameters { domain: s("example.com"), email: s("me@example.com"), token: s("t") });
}

#[test]
fn parse_stops_at_the_first_failure() {
    let reads = FileReads {
        domain: FileRead::Content(s("example.com\n")),
        email: FileRead::Content(s("\n")),
        token: FileRead::Missing,
    };
    let err = parse(file_args(), reads).unwrap_err();
    assert!(matches!(err, Error::FileIsEmpty(ref p) if p == "/run/email"));

    let reads = FileReads {
        domain: FileRead::Missing,
        email: FileRead::Content(s("\n")),
        token: FileRead::Missing,
    };
    let err = parse(file_args(), reads).unwrap_err();
    assert!(matches!(err, Error::FileNotFound(ref p) if p == "/run/domain"));

    let reads = FileReads {
        domain: FileRead::Content(s("d")),
        email: FileRead::Content(s("e")),
        token: FileRead::Missing,
    };
    let err = parse(file_args(), reads).unwrap_err();
    assert!(matches!(err, Error::FileNotFound(ref p) if p == "/run/token"));
}
