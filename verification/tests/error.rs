use config_script::error::{ErrorKind, Origin, ProcessError};

const KINDS: [ErrorKind; 7] = [
    ErrorKind::SessionInit,
    ErrorKind::Compile,
    ErrorKind::Link,
    ErrorKind::ScriptRuntime,
    ErrorKind::GlobalRead,
    ErrorKind::Decode,
    ErrorKind::Encode,
];

#[test]
fn origin_of_each_kind() {
    assert_eq!(ErrorKind::Compile.origin(), Origin::Script);
    assert_eq!(ErrorKind::Link.origin(), Origin::Script);
    assert_eq!(ErrorKind::ScriptRuntime.origin(), Origin::Script);
    assert_eq!(ErrorKind::SessionInit.origin(), Origin::Infrastructure);
    assert_eq!(ErrorKind::GlobalRead.origin(), Origin::Infrastructure);
    assert_eq!(ErrorKind::Decode.origin(), Origin::Data);
    assert_eq!(ErrorKind::Encode.origin(), Origin::Data);
}

#[test]
fn description_of_each_kind() {
    assert_eq!(ErrorKind::SessionInit.description(), "failed to create runtime");
    assert_eq!(ErrorKind::Compile.description(), "failed to define user script module");
    assert_eq!(ErrorKind::Link.description(), "failed to evaluate user script");
    assert_eq!(
        ErrorKind::ScriptRuntime.description(),
        "failed to wait for user script to finish"
    );
    assert_eq!(ErrorKind::GlobalRead.description(), "failed to get final result");
    assert_eq!(ErrorKind::Decode.description(), "failed to deserialize final result");
    assert_eq!(ErrorKind::Encode.description(), "failed to serialize input");
}

#[test]
fn message_ends_with_the_diagnostic() {
    for kind in KINDS {
        let error = ProcessError::new(kind, "line 3: unexpected token".to_string());
        assert_eq!(error.kind, kind);
        assert_eq!(error.diagnostic, "line 3: unexpected token");
        assert_eq!(
            error.message(),
            format!("{}: line 3: unexpected token", kind.description())
        );
    }
}

#[test]
fn message_of_an_empty_diagnostic() {
    let error = ProcessError::new(ErrorKind::Link, String::new());
    assert_eq!(error.message(), "failed to evaluate user script: ");
}
