use burnchains::error::{Error, ErrorCause};

#[test]
fn fs_error_keeps_cause_text() {
    let text = "No such file or directory (os error 2)";
    let e = Error::FSError(ErrorCause::new(String::from(text)));
    assert_eq!(e.to_string(), text);
    assert_eq!(e.description(), text);
    assert_eq!(e.cause().map(|c| c.message.clone()), Some(String::from(text)));
}

#[test]
fn wrapping_variants_keep_cause_text() {
    let wrap: [fn(ErrorCause) -> Error; 5] =
        [Error::Bitcoin, Error::DBError, Error::DownloadError, Error::FSError, Error::OpError];
    for w in wrap.iter() {
        let e = w(ErrorCause::new(String::from("inner failure")));
        assert_eq!(e.to_string(), "inner failure");
        assert!(e.cause().is_some());
    }
}

#[test]
fn leaf_variant_descriptions() {
    assert_eq!(Error::UnsupportedBurnchain.to_string(), "Unsupported burnchain");
    assert_eq!(Error::ParseError.to_string(), "Parse error");
    assert_eq!(Error::MissingHeaders.to_string(), "Missing block headers");
    assert_eq!(Error::ThreadChannelError.description(), "Error in thread channel");
    assert!(Error::ParseError.cause().is_none());
    assert!(Error::MissingHeaders.cause().is_none());
}
