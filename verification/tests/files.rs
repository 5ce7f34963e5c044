use masmlint::is_masm_file;

#[test]
fn masm_extension_is_recognized() {
    assert!(is_masm_file("foo.masm"));
    assert!(is_masm_file("a/b/c.masm"));
    assert!(is_masm_file("nested.dir/deep/file.masm"));
}

#[test]
fn masm_extension_ignores_ascii_case() {
    assert!(is_masm_file("foo.MASM"));
    assert!(is_masm_file("foo.MaSm"));
    assert!(is_masm_file("a/b.mAsM"));
}

#[test]
fn other_extensions_are_rejected() {
    assert!(!is_masm_file("foo.rs"));
    assert!(!is_masm_file("foo.masms"));
    assert!(!is_masm_file("foo.masm.txt"));
    assert!(!is_masm_file("foo.asm"));
}

#[test]
fn names_without_an_extension_are_rejected() {
    assert!(!is_masm_file("foo"));
    assert!(!is_masm_file(""));
    assert!(!is_masm_file("foo."));
    assert!(!is_masm_file(".masm"));
    assert!(!is_masm_file("dir.masm/file"));
}

#[test]
fn only_the_final_component_counts() {
    assert!(is_masm_file("dir.txt/file.masm"));
    assert!(!is_masm_file("dir/.masm"));
    assert!(!is_masm_file("file.masm/"));
}
