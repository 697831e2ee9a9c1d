use minimal::pretty::indent;
use minimal::Error;
use minimal::ErrorKind;
use minimal::OsError;
use minimal::OsErrorKind;
use std::sync::mpsc::RecvError;

const OCCUPIED: &str =
    "Os {\n    code: 98,\n    kind: AddrInUse,\n    message: \"Address already in use\",\n}";

fn described(kind: OsErrorKind, code: Option<i32>, message: &str, debug: &str) -> OsError {
    OsError { kind, code, message: message.to_string(), debug: debug.to_string() }
}

/// A value whose debug text is the text it holds.
struct Raw(&'static str);

impl std::fmt::Debug for Raw {
    fn fmt(&self, out: &mut std::fmt::Formatter) -> std::fmt::Result {
        out.write_str(self.0)
    }
}

/// The three kinds with a payload that the standard formatter prints.
#[allow(dead_code)]
#[derive(Debug)]
enum Printed<T> {
    AddrInUse(T),
    AddrNotAvailable(T),
    ServerStartupFailed(RecvError),
}

fn by_formatter<T: std::fmt::Debug, S: std::fmt::Debug>(kind: &Printed<T>, source: &Option<S>) -> String {
    format!("ErrorKind: {:#?}, source: {:#?}", kind, source)
}

fn of_io(error: &std::io::Error) -> OsError {
    let kind = match error.kind() {
        std::io::ErrorKind::AddrInUse => OsErrorKind::AddrInUse,
        std::io::ErrorKind::AddrNotAvailable => OsErrorKind::AddrNotAvailable,
        std::io::ErrorKind::PermissionDenied => OsErrorKind::PermissionDenied,
        std::io::ErrorKind::InvalidInput => OsErrorKind::InvalidInput,
        _ => OsErrorKind::Other,
    };
    OsError {
        kind,
        code: error.raw_os_error(),
        message: error.to_string(),
        debug: format!("{:#?}", error),
    }
}

#[test]
fn occupied_address_is_addr_in_use() {
    let kind = ErrorKind::classify(described(
        OsErrorKind::AddrInUse,
        Some(98),
        "Address already in use (os error 98)",
        OCCUPIED,
    ));
    assert_eq!(
        kind,
        ErrorKind::AddrInUse(described(
            OsErrorKind::AddrInUse,
            Some(98),
            "Address already in use (os error 98)",
            OCCUPIED,
        ))
    );
}

#[test]
fn every_other_failure_is_addr_not_available() {
    let kinds = [
        OsErrorKind::AddrNotAvailable,
        OsErrorKind::PermissionDenied,
        OsErrorKind::InvalidInput,
        OsErrorKind::Other,
    ];
    for kind in kinds {
        assert_eq!(
            ErrorKind::classify(described(kind, None, "failed", "Failed")),
            ErrorKind::AddrNotAvailable(described(kind, None, "failed", "Failed"))
        );
    }
}

#[test]
fn classification_keeps_the_description() {
    let kind = ErrorKind::classify(described(
        OsErrorKind::PermissionDenied,
        Some(13),
        "Permission denied (os error 13)",
        "Os {\n    code: 13,\n    kind: PermissionDenied,\n    message: \"Permission denied\",\n}",
    ));
    match kind {
        ErrorKind::AddrNotAvailable(failure) => {
            assert_eq!(failure.kind, OsErrorKind::PermissionDenied);
            assert_eq!(failure.code, Some(13));
            assert_eq!(failure.message, "Permission denied (os error 13)");
            assert_eq!(
                failure.debug,
                "Os {\n    code: 13,\n    kind: PermissionDenied,\n    message: \"Permission denied\",\n}"
            );
        }
        other => panic!("filed under {:?}", other),
    }
}

#[test]
fn classification_of_real_system_errors() {
    let occupied = std::io::Error::from(std::io::ErrorKind::AddrInUse);
    assert!(matches!(ErrorKind::classify(of_io(&occupied)), ErrorKind::AddrInUse(_)));
    let others = [
        std::io::ErrorKind::AddrNotAvailable,
        std::io::ErrorKind::PermissionDenied,
        std::io::ErrorKind::InvalidInput,
        std::io::ErrorKind::NotFound,
        std::io::ErrorKind::TimedOut,
        std::io::ErrorKind::Other,
    ];
    for kind in others {
        let error = std::io::Error::from(kind);
        assert!(matches!(ErrorKind::classify(of_io(&error)), ErrorKind::AddrNotAvailable(_)));
    }
}

#[test]
fn new_keeps_kind_and_source() {
    let error = Error::new(ErrorKind::ServerStartupFailed(RecvError), Some("worker gone".to_string()));
    assert_eq!(error.kind, ErrorKind::ServerStartupFailed(RecvError));
    assert_eq!(error.source, Some("worker gone".to_string()));

    let plain = Error::new(ErrorKind::ServerStartupFailed(RecvError), None);
    assert_eq!(plain.source, None);
}

#[test]
fn indent_of_nothing_is_nothing() {
    assert_eq!(indent(""), "");
}

#[test]
fn indent_sets_one_line_in() {
    assert_eq!(indent("RecvError"), "    RecvError");
    assert_eq!(indent("RecvError,\n"), "    RecvError,\n");
}

#[test]
fn indent_sets_every_line_in() {
    assert_eq!(indent("Os {\n    code: 98,\n}"), "    Os {\n        code: 98,\n    }");
    assert_eq!(indent("a\nb\n"), "    a\n    b\n");
}

#[test]
fn indent_sets_empty_lines_in() {
    assert_eq!(indent("\n"), "    \n");
    assert_eq!(indent("\n\n"), "    \n    \n");
    assert_eq!(indent("a\n\nb"), "    a\n    \n    b");
}

#[test]
fn indent_counts_characters_not_bytes() {
    assert_eq!(indent("Größe\nλ: ünïcödé\n"), "    Größe\n    λ: ünïcödé\n");
}

#[test]
fn renders_addr_in_use() {
    let error = Error::new(
        ErrorKind::AddrInUse(described(
            OsErrorKind::AddrInUse,
            Some(98),
            "Address already in use (os error 98)",
            OCCUPIED,
        )),
        None,
    );
    assert_eq!(
        error.to_string(),
        "ErrorKind: AddrInUse(\n    Os {\n        code: 98,\n        kind: AddrInUse,\n        message: \"Address already in use\",\n    },\n), source: None"
    );
}

#[test]
fn renders_addr_not_available() {
    let error = Error::new(
        ErrorKind::AddrNotAvailable(described(
            OsErrorKind::InvalidInput,
            None,
            "invalid socket address",
            "Error {\n    kind: InvalidInput,\n    message: \"invalid socket address\",\n}",
        )),
        None,
    );
    assert_eq!(
        error.to_string(),
        "ErrorKind: AddrNotAvailable(\n    Error {\n        kind: InvalidInput,\n        message: \"invalid socket address\",\n    },\n), source: None"
    );
}

#[test]
fn renders_server_startup_failed() {
    let error = Error::new(ErrorKind::ServerStartupFailed(RecvError), None);
    assert_eq!(
        error.to_string(),
        "ErrorKind: ServerStartupFailed(\n    RecvError,\n), source: None"
    );
    assert_eq!(error.to_string().chars().count(), 62);
}

#[test]
fn renders_the_source() {
    let error = Error::new(
        ErrorKind::ServerStartupFailed(RecvError),
        Some("Kind(\n    BrokenPipe,\n)".to_string()),
    );
    assert_eq!(
        error.to_string(),
        "ErrorKind: ServerStartupFailed(\n    RecvError,\n), source: Some(\n    Kind(\n        BrokenPipe,\n    ),\n)"
    );
}

#[test]
fn renders_empty_texts() {
    let error = Error::new(
        ErrorKind::AddrNotAvailable(described(OsErrorKind::Other, None, "", "")),
        Some(String::new()),
    );
    assert_eq!(
        error.to_string(),
        "ErrorKind: AddrNotAvailable(\n    ,\n), source: Some(\n    ,\n)"
    );
}

#[test]
fn renders_variants_differently() {
    let occupied = Error::new(
        ErrorKind::AddrInUse(described(OsErrorKind::AddrInUse, None, "busy", "Busy")),
        None,
    );
    let unavailable = Error::new(
        ErrorKind::AddrNotAvailable(described(OsErrorKind::AddrInUse, None, "busy", "Busy")),
        None,
    );
    assert_eq!(occupied.to_string(), "ErrorKind: AddrInUse(\n    Busy,\n), source: None");
    assert_eq!(unavailable.to_string(), "ErrorKind: AddrNotAvailable(\n    Busy,\n), source: None");
    assert_ne!(occupied.to_string(), unavailable.to_string());
}

#[test]
fn renders_as_the_formatter_prints_system_errors() {
    let errors = [
        std::io::Error::from_raw_os_error(98),
        std::io::Error::from_raw_os_error(99),
        std::io::Error::from(std::io::ErrorKind::AddrInUse),
        std::io::Error::new(std::io::ErrorKind::Other, "Can not bind to address."),
        std::io::Error::new(std::io::ErrorKind::InvalidInput, "invalid socket address"),
    ];
    for error in errors {
        let failure = of_io(&error);
        let occupied = failure.kind == OsErrorKind::AddrInUse;
        let rendered = Error::new(ErrorKind::classify(failure), None).to_string();
        let none: Option<Raw> = None;
        let printed = if occupied {
            by_formatter(&Printed::AddrInUse(error), &none)
        } else {
            by_formatter(&Printed::AddrNotAvailable(error), &none)
        };
        assert_eq!(rendered, printed);
    }
}

#[test]
fn renders_as_the_formatter_prints_a_boxed_source() {
    let cause: Box<dyn std::error::Error + Send + Sync> =
        Box::new(std::io::Error::new(std::io::ErrorKind::Other, "worker gone"));
    let rendered = Error::new(
        ErrorKind::ServerStartupFailed(RecvError),
        Some(format!("{:#?}", cause)),
    )
    .to_string();
    let kind: Printed<Raw> = Printed::ServerStartupFailed(RecvError);
    assert_eq!(rendered, by_formatter(&kind, &Some(cause)));
}

#[test]
fn renders_as_the_formatter_prints_any_text() {
    let texts = [
        "",
        "x",
        "\n",
        "x\n",
        "\nx",
        "a\n\nb",
        "a\nb\n\n",
        "    set in already\n  and less\n",
        "Os {\n    code: 98,\n    kind: AddrInUse,\n    message: \"Address already in use\",\n}",
        "λ\nünïcödé",
    ];
    for text in texts {
        for cause in texts {
            let rendered = Error::new(
                ErrorKind::AddrNotAvailable(described(OsErrorKind::Other, None, "", text)),
                Some(cause.to_string()),
            )
            .to_string();
            assert_eq!(
                rendered,
                by_formatter(&Printed::AddrNotAvailable(Raw(text)), &Some(Raw(cause)))
            );
        }
        assert_eq!(
            format!("Some(\n{})", indent(&format!("{},\n", text))),
            format!("{:#?}", Some(Raw(text)))
        );
    }
}
