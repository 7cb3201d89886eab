use microsoft_365::documents::{
    build_docx, build_pptx, build_slide_xml, content_types_xml, create_powerpoint,
    create_word_document, ensure_extension, package_rels, presentation_rels, presentation_xml,
    slide_layout_rels, slide_layout_xml, slide_master_rels, slide_master_xml, slide_rels,
    theme_xml, xml_escape, POWERPOINT_NEEDS_SLIDE, WORD_NEEDS_TITLE,
};
use microsoft_365::graph::{DOCX_MIME, MISSING_TOKEN_MESSAGE, PPTX_MIME};
use microsoft_365::types::{default_mail_limit, default_true, PowerpointSlide, WordSection};
use std::io::Read;

const SLIDE_OVERRIDE_LINE: &str = "ContentType=\"application/vnd.openxmlformats-officedocument.presentationml.slide+xml\"/>\n";

fn slide(title: &str, bullets: &[&str]) -> PowerpointSlide {
    PowerpointSlide {
        title: title.to_string(),
        bullets: bullets.iter().map(|b| b.to_string()).collect(),
    }
}

fn unzip(bytes: &[u8]) -> Vec<(String, String)> {
    let mut archive = zip::ZipArchive::new(std::io::Cursor::new(bytes.to_vec())).unwrap();
    let mut out = Vec::new();
    for i in 0..archive.len() {
        let mut file = archive.by_index(i).unwrap();
        assert_eq!(file.compression(), zip::CompressionMethod::Deflated);
        let mut text = String::new();
        file.read_to_string(&mut text).unwrap();
        out.push((file.name().to_string(), text));
    }
    out
}

#[test]
fn content_types_lists_each_slide() {
    let xml = content_types_xml(2);
    assert!(xml.starts_with("<?xml version=\"1.0\" encoding=\"UTF-8\" standalone=\"yes\"?>\n<Types "));
    let tail = format!(
        "<Override PartName=\"/ppt/slides/slide1.xml\" {}<Override PartName=\"/ppt/slides/slide2.xml\" {}</Types>",
        SLIDE_OVERRIDE_LINE, SLIDE_OVERRIDE_LINE
    );
    assert!(xml.ends_with(&tail), "{}", xml);
    assert_eq!(xml.matches("/ppt/slides/").count(), 2);
    assert_eq!(content_types_xml(0).matches("/ppt/slides/").count(), 0);
}

#[test]
fn presentation_numbers_slides_from_256() {
    let xml = presentation_xml(2);
    assert!(xml.contains(
        "<p:sldIdLst>\n<p:sldId id=\"256\" r:id=\"rId2\"/>\n<p:sldId id=\"257\" r:id=\"rId3\"/>\n</p:sldIdLst>"
    ));
    assert!(xml.ends_with("<p:notesSz cx=\"6858000\" cy=\"9144000\"/>\n</p:presentation>"));
    assert!(presentation_xml(0).contains("<p:sldIdLst>\n</p:sldIdLst>"));
}

#[test]
fn presentation_rels_point_at_slides() {
    let xml = presentation_rels(1);
    assert!(xml.ends_with(
        "<Relationship Id=\"rId2\" Type=\"http://schemas.openxmlformats.org/officeDocument/2006/relationships/slide\" Target=\"slides/slide1.xml\"/>\n</Relationships>"
    ));
    assert!(xml.contains("Target=\"slideMasters/slideMaster1.xml\"/>\n"));
}

#[test]
fn slide_xml_escapes_title_and_bullets() {
    let xml = build_slide_xml(&slide("A & B", &["x<y", "\"q\""]));
    assert!(xml.contains("<a:t>A &amp; B</a:t>"));
    assert!(xml.contains(
        "<a:lstStyle/><a:p><a:pPr lvl=\"0\"/><a:r><a:rPr lang=\"en-US\" dirty=\"0\"/><a:t>x&lt;y</a:t></a:r></a:p><a:p><a:pPr lvl=\"0\"/><a:r><a:rPr lang=\"en-US\" dirty=\"0\"/><a:t>&quot;q&quot;</a:t></a:r></a:p></p:txBody>"
    ));
    assert!(!xml.contains("endParaRPr"));
    assert!(xml.ends_with("</p:spTree>\n</p:cSld>\n</p:sld>"));
}

#[test]
fn slide_xml_without_bullets_has_an_empty_paragraph() {
    let xml = build_slide_xml(&slide("Only", &[]));
    assert!(xml.contains("<a:lstStyle/><a:p><a:endParaRPr lang=\"en-US\"/></a:p></p:txBody>"));
    assert!(xml.contains("<a:t>Only</a:t>"));
}

#[test]
fn pptx_archive_holds_the_parts_in_order() {
    let slides = vec![slide("One", &["a"]), slide("Two", &[])];
    let bytes = build_pptx(&slides).unwrap();
    let entries = unzip(&bytes);
    let expected = vec![
        ("[Content_Types].xml".to_string(), content_types_xml(2)),
        ("_rels/.rels".to_string(), package_rels()),
        ("ppt/presentation.xml".to_string(), presentation_xml(2)),
        ("ppt/_rels/presentation.xml.rels".to_string(), presentation_rels(2)),
        ("ppt/slideMasters/slideMaster1.xml".to_string(), slide_master_xml()),
        ("ppt/slideMasters/_rels/slideMaster1.xml.rels".to_string(), slide_master_rels()),
        ("ppt/slideLayouts/slideLayout1.xml".to_string(), slide_layout_xml()),
        ("ppt/slideLayouts/_rels/slideLayout1.xml.rels".to_string(), slide_layout_rels()),
        ("ppt/theme/theme1.xml".to_string(), theme_xml()),
        ("ppt/slides/slide1.xml".to_string(), build_slide_xml(&slides[0])),
        ("ppt/slides/_rels/slide1.xml.rels".to_string(), slide_rels()),
        ("ppt/slides/slide2.xml".to_string(), build_slide_xml(&slides[1])),
        ("ppt/slides/_rels/slide2.xml.rels".to_string(), slide_rels()),
    ];
    assert_eq!(entries, expected);
}

#[test]
fn pptx_is_deterministic() {
    let slides = vec![slide("Same", &["x"])];
    assert_eq!(build_pptx(&slides).unwrap(), build_pptx(&slides).unwrap());
}

#[test]
fn powerpoint_needs_a_slide() {
    assert_eq!(
        create_powerpoint(true, None, "deck", &[]).err().unwrap(),
        POWERPOINT_NEEDS_SLIDE
    );
    assert_eq!(POWERPOINT_NEEDS_SLIDE, "create_powerpoint requires at least one slide");
}

#[test]
fn powerpoint_is_uploaded_with_its_extension() {
    let slides = vec![slide("Hello", &["world"])];
    let req = create_powerpoint(true, Some("F9"), "deck", &slides).unwrap();
    assert_eq!(req.method, "PUT");
    assert_eq!(req.url, "https://graph.microsoft.com/v1.0/me/drive/items/F9:/deck.pptx:/content");
    assert_eq!(req.headers, format!("{{\"Content-Type\": \"{}\"}}", PPTX_MIME));
    assert_eq!(req.body.unwrap(), build_pptx(&slides).unwrap());
    let err = create_powerpoint(false, None, "deck", &slides).err().unwrap();
    assert_eq!(err, MISSING_TOKEN_MESSAGE);
}

#[test]
fn powerpoint_keeps_an_existing_extension() {
    let slides = vec![slide("Hello", &[])];
    let req = create_powerpoint(true, None, "Deck.PPTX", &slides).unwrap();
    assert_eq!(req.url, "https://graph.microsoft.com/v1.0/me/drive/root:/Deck.PPTX:/content");
}

#[test]
fn docx_holds_the_title_and_table() {
    let sections = vec![WordSection {
        heading: Some("Results".to_string()),
        paragraphs: vec!["First & foremost".to_string()],
        table: Some(vec![
            vec!["Name".to_string(), "Score".to_string()],
            vec!["Ada".to_string()],
        ]),
    }];
    let bytes = build_docx("Quarterly <Report>", Some("Q3"), &sections).unwrap();
    assert_eq!(&bytes[..4], b"PK\x03\x04");
    let mut archive = zip::ZipArchive::new(std::io::Cursor::new(bytes)).unwrap();
    let mut doc = String::new();
    archive.by_name("word/document.xml").unwrap().read_to_string(&mut doc).unwrap();
    assert!(doc.contains("Quarterly &lt;Report&gt;"), "{}", doc);
    assert!(doc.contains("Q3"));
    assert!(doc.contains("Results"));
    assert!(doc.contains("First &amp; foremost"));
    assert!(doc.contains("Ada"));
    assert!(doc.contains("4500"));
}

#[test]
fn word_document_needs_a_title() {
    assert_eq!(
        create_word_document(true, None, "doc", "  ", None, &[]).err().unwrap(),
        WORD_NEEDS_TITLE
    );
    assert_eq!(WORD_NEEDS_TITLE, "create_word_document requires a title");
}

#[test]
fn word_document_is_uploaded_with_its_extension() {
    let req = create_word_document(true, None, "notes", "Title", Some(" "), &[]).unwrap();
    assert_eq!(req.url, "https://graph.microsoft.com/v1.0/me/drive/root:/notes.docx:/content");
    assert_eq!(req.headers, format!("{{\"Content-Type\": \"{}\"}}", DOCX_MIME));
    assert_eq!(&req.body.unwrap()[..2], b"PK");
}

#[test]
fn xml_escape_then_unescape_gives_back_the_text() {
    let original = "a<b>&\"c'";
    let escaped = xml_escape(original);
    let back = escaped
        .replace("&lt;", "<")
        .replace("&gt;", ">")
        .replace("&quot;", "\"")
        .replace("&apos;", "'")
        .replace("&amp;", "&");
    assert_eq!(back, original);
    assert!(!escaped.contains('<') && !escaped.contains('>') && !escaped.contains('"'));
}

#[test]
fn ensure_extension_twice_is_once() {
    let once = ensure_extension("slides", ".pptx");
    assert_eq!(ensure_extension(&once, ".pptx"), once);
    assert!(once.ends_with(".pptx"));
}

#[test]
fn action_defaults() {
    assert_eq!(default_mail_limit(), 25);
    assert!(default_true());
}

#[test]
fn every_slide_is_linked_under_one_number() {
    let n = 3;
    let presentation = presentation_xml(n);
    let rels = presentation_rels(n);
    let types = content_types_xml(n);
    for i in 0..n {
        assert!(presentation.contains(&format!("<p:sldId id=\"{}\" r:id=\"rId{}\"/>\n", 256 + i, i + 2)));
        assert!(rels.contains(&format!(
            "<Relationship Id=\"rId{}\" Type=\"http://schemas.openxmlformats.org/officeDocument/2006/relationships/slide\" Target=\"slides/slide{}.xml\"/>\n",
            i + 2,
            i + 1
        )));
        assert!(types.contains(&format!("<Override PartName=\"/ppt/slides/slide{}.xml\" ", i + 1)));
    }
}

#[test]
fn presentation_relationships_are_the_master_and_one_per_slide() {
    for n in 0..4 {
        let rels = presentation_rels(n);
        assert_eq!(rels.matches("<Relationship ").count(), n + 1);
        assert!(rels.contains("<Relationship Id=\"rId1\" Type=\"http://schemas.openxmlformats.org/officeDocument/2006/relationships/slideMaster\" Target=\"slideMasters/slideMaster1.xml\"/>"));
        assert!(presentation_xml(n).contains("<p:sldMasterId id=\"2147483648\" r:id=\"rId1\"/>"));
    }
}

#[test]
fn every_ampersand_begins_an_entity() {
    let escaped = xml_escape("a & b <c> \"d\" 'e' &amp;");
    assert_eq!(escaped, "a &amp; b &lt;c&gt; &quot;d&quot; &apos;e&apos; &amp;amp;");
    for (i, c) in escaped.char_indices() {
        if c == '&' {
            let rest = &escaped[i..];
            assert!(["&amp;", "&lt;", "&gt;", "&quot;", "&apos;"].iter().any(|e| rest.starts_with(e)));
        }
    }
}
