use objdispatch::in_selector_family;
use objdispatch::retain_semantics;

#[test]
fn test_in_selector_family() {
    // Common cases

    assert!(in_selector_family(b"alloc", b"alloc"));
    assert!(in_selector_family(b"allocWithZone:", b"alloc"));
    assert!(!in_selector_family(b"dealloc", b"alloc"));
    assert!(!in_selector_family(b"initialize", b"init"));
    assert!(!in_selector_family(b"decimalNumberWithDecimal:", b"init"));
    assert!(in_selector_family(b"initWithCapacity:", b"init"));
    assert!(in_selector_family(b"_initButPrivate:withParam:", b"init"));
    assert!(!in_selector_family(b"description", b"init"));
    assert!(!in_selector_family(b"inIT", b"init"));

    assert!(!in_selector_family(b"init", b"copy"));
    assert!(!in_selector_family(b"copyingStuff:", b"copy"));
    assert!(in_selector_family(b"copyWithZone:", b"copy"));
    assert!(!in_selector_family(b"initWithArray:copyItems:", b"copy"));
    assert!(in_selector_family(b"copyItemAtURL:toURL:error:", b"copy"));

    assert!(!in_selector_family(b"mutableCopying", b"mutableCopy"));
    assert!(in_selector_family(b"mutableCopyWithZone:", b"mutableCopy"));
    assert!(in_selector_family(b"mutableCopyWithZone:", b"mutableCopy"));

    assert!(in_selector_family(
        b"newScriptingObjectOfClass:forValueForKey:withContentsValue:properties:",
        b"new"
    ));
    assert!(in_selector_family(
        b"newScriptingObjectOfClass:forValueForKey:withContentsValue:properties:",
        b"new"
    ));
    assert!(!in_selector_family(b"newsstandAssetDownload", b"new"));

    // Trying to weed out edge-cases:

    assert!(in_selector_family(b"__abcDef", b"abc"));
    assert!(in_selector_family(b"_abcDef", b"abc"));
    assert!(in_selector_family(b"abcDef", b"abc"));
    assert!(in_selector_family(b"___a", b"a"));
    assert!(in_selector_family(b"__a", b"a"));
    assert!(in_selector_family(b"_a", b"a"));
    assert!(in_selector_family(b"a", b"a"));

    assert!(!in_selector_family(b"_abcdef", b"abc"));
    assert!(!in_selector_family(b"_abcdef", b"def"));
    assert!(!in_selector_family(b"_bcdef", b"abc"));
    assert!(!in_selector_family(b"a_bc", b"abc"));
    assert!(!in_selector_family(b"abcdef", b"abc"));
    assert!(!in_selector_family(b"abcdef", b"def"));
    assert!(!in_selector_family(b"abcdef", b"abb"));
    assert!(!in_selector_family(b"___", b"a"));
    assert!(!in_selector_family(b"_", b"a"));
    assert!(!in_selector_family(b"", b"a"));

    assert!(in_selector_family(b"copy", b"copy"));
    assert!(in_selector_family(b"copy:", b"copy"));
    assert!(in_selector_family(b"copyMe", b"copy"));
    assert!(in_selector_family(b"_copy", b"copy"));
    assert!(in_selector_family(b"_copy:", b"copy"));
    assert!(in_selector_family(b"_copyMe", b"copy"));
    assert!(!in_selector_family(b"copying", b"copy"));
    assert!(!in_selector_family(b"copying:", b"copy"));
    assert!(!in_selector_family(b"_copying", b"copy"));
    assert!(!in_selector_family(b"Copy", b"copy"));
    assert!(!in_selector_family(b"COPY", b"copy"));

    // Empty family (not supported)
    assert!(in_selector_family(b"___", b""));
    assert!(in_selector_family(b"__", b""));
    assert!(in_selector_family(b"_", b""));
    assert!(in_selector_family(b"", b""));
    assert!(!in_selector_family(b"_a", b""));
    assert!(!in_selector_family(b"a", b""));
    assert!(in_selector_family(b"_A", b""));
    assert!(in_selector_family(b"A", b""));
}

#[test]
fn classification_of_known_selectors() {
    assert_eq!(retain_semantics("new"), 1);
    assert_eq!(
        retain_semantics("newScriptingObjectOfClass:forValueForKey:withContentsValue:properties:"),
        1
    );
    assert_eq!(retain_semantics("newsstandAssetDownload"), 5);
    assert_eq!(retain_semantics("alloc"), 2);
    assert_eq!(retain_semantics("allocWithZone:"), 2);
    assert_eq!(retain_semantics("dealloc"), 5);
    assert_eq!(retain_semantics("init"), 3);
    assert_eq!(retain_semantics("initWithCapacity:"), 3);
    assert_eq!(retain_semantics("_initButPrivate:withParam:"), 3);
    assert_eq!(retain_semantics("initialize"), 5);
    assert_eq!(retain_semantics("description"), 5);
    assert_eq!(retain_semantics("copy"), 4);
    assert_eq!(retain_semantics("copyWithZone:"), 4);
    assert_eq!(retain_semantics("copyItemAtURL:toURL:error:"), 4);
    assert_eq!(retain_semantics("copying:"), 5);
    assert_eq!(retain_semantics("mutableCopy"), 4);
    assert_eq!(retain_semantics("mutableCopyWithZone:"), 4);
    assert_eq!(retain_semantics("mutableCopying"), 5);
}

#[test]
fn classification_is_deterministic_and_total() {
    let selectors = [
        "new",
        "alloc",
        "init",
        "copy",
        "mutableCopy",
        "description",
        "___",
        "",
        "_initWithFoo:",
        "inIT",
    ];
    for s in selectors {
        let first = retain_semantics(s);
        let second = retain_semantics(s);
        assert_eq!(first, second);
        assert!((1..=5).contains(&first));
    }
}

#[test]
fn underscores_are_stripped_before_matching() {
    assert!(in_selector_family(b"___a", b"a"));
    assert!(in_selector_family(b"a", b"a"));
    assert!(!in_selector_family(b"___", b"a"));
    assert_eq!(retain_semantics("___init"), 3);
    assert_eq!(retain_semantics("init"), 3);
}
