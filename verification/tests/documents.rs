use microsoft_365::documents::{ensure_extension, xml_escape};

#[test]
fn xml_escape_handles_all_reserved_chars() {
    assert_eq!(
        xml_escape(r#"<a href="x">'foo' & "bar"</a>"#),
        "&lt;a href=&quot;x&quot;&gt;&apos;foo&apos; &amp; &quot;bar&quot;&lt;/a&gt;"
    );
}

#[test]
fn xml_escape_passes_through_safe_input() {
    assert_eq!(xml_escape("hello world"), "hello world");
}

#[test]
fn ensure_extension_appends_when_missing() {
    assert_eq!(ensure_extension("report", ".docx"), "report.docx");
}

#[test]
fn ensure_extension_idempotent_when_present() {
    assert_eq!(ensure_extension("report.docx", ".docx"), "report.docx");
}

#[test]
fn ensure_extension_case_insensitive() {
    assert_eq!(ensure_extension("REPORT.DOCX", ".docx"), "REPORT.DOCX");
}
