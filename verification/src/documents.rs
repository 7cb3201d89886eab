//! Word and PowerPoint documents: what they contain, how their files are
//! named, and how they are packaged for upload.

use vstd::prelude::*;
use vstd::string::StringSliceAdditionalSpecFns;
use crate::pptx_parts::{
    CONTENT_TYPES_HEAD, PACKAGE_RELS_XML, PRESENTATION_HEAD, PRESENTATION_TAIL,
    PRESENTATION_RELS_HEAD, SLIDE_MASTER_XML, SLIDE_MASTER_RELS_XML, SLIDE_LAYOUT_XML,
    SLIDE_LAYOUT_RELS_XML, THEME_XML, SLIDE_HEAD, SLIDE_MIDDLE, SLIDE_TAIL, SLIDE_RELS_XML,
    SLIDE_OVERRIDE_OPEN, SLIDE_OVERRIDE_CLOSE, CONTENT_TYPES_CLOSE, SLIDE_ID_OPEN, SLIDE_ID_MIDDLE,
    SLIDE_ID_CLOSE, SLIDE_REL_OPEN, SLIDE_REL_MIDDLE, SLIDE_REL_CLOSE, RELATIONSHIPS_CLOSE,
    BULLET_OPEN, BULLET_CLOSE, EMPTY_BODY, PRESENTATION_RELS_OPEN, MASTER_RELATIONSHIP,
    MASTER_ID_ENTRY,
};
use crate::text::{decimal, decimal_string, push_char};
use crate::types::{PowerpointSlide, WordSection};
use crate::docx_render::{
    Alignment, WidthUnit, BorderStyle, BorderSide, RunV, ParagraphV, CellV, BorderV, TableV,
    BlockV, run_state, paragraph_state, cell_state, row_state, table_state, borders_state,
    border_state, docx_blocks, docx_packs, xml_docx_blocks, without_newlines, run_new, run_add_text, run_size, run_bold, run_italic,
    paragraph_new, paragraph_add_run, paragraph_align, cell_new, cell_add_paragraph, cell_width,
    row_new, table_new, table_set_grid, table_set_borders, borders_with_empty, borders_set_border,
    border_new, border_style, border_size, border_color, docx_new, docx_add_paragraph,
    docx_add_table, docx_build, xml_docx_pack,
};

verus! {

// ---------------------------------------------------------------------------
// XML text
// ---------------------------------------------------------------------------

/// The XML form of one character: the five markup characters become
/// entities, every other character stays.
pub open spec fn escape_char(c: char) -> Seq<char> {
    if c == '&' {
        "&amp;"@
    } else if c == '<' {
        "&lt;"@
    } else if c == '>' {
        "&gt;"@
    } else if c == '"' {
        "&quot;"@
    } else if c == '\'' {
        "&apos;"@
    } else {
        seq![c]
    }
}

pub open spec fn xml_escaped(s: Seq<char>) -> Seq<char> {
    s.map_values(|c: char| escape_char(c)).flatten()
}

/// Escapes `&`, `<`, `>`, `"` and `'` for use in XML text and attributes.
pub fn xml_escape(s: &str) -> (r: String)
    ensures
        r@ == xml_escaped(s@),
{
    let mut out = String::new();
    for c in it: s.chars()
        invariant
            it.seq() == s@,
            out@ == xml_escaped(s@.take(it.index() as int)),
    {
        proof {
            let f = |c: char| escape_char(c);
            let i = it.index();
            assert(s@.take(i + 1) =~= s@.take(i as int).push(c));
            assert(s@.take(i + 1).map_values(f) =~= s@.take(i as int).map_values(f).push(f(c)));
            s@.take(i as int).map_values(f).lemma_flatten_push(f(c));
        }
        if c == '&' {
            out.append("&amp;");
        } else if c == '<' {
            out.append("&lt;");
        } else if c == '>' {
            out.append("&gt;");
        } else if c == '"' {
            out.append("&quot;");
        } else if c == '\'' {
            out.append("&apos;");
        } else {
            push_char(&mut out, c);
        }
    }
    assert(s@.take(s@.len() as int) =~= s@);
    out
}

// ---------------------------------------------------------------------------
// File names
// ---------------------------------------------------------------------------

pub open spec fn ascii_lower_char(c: char) -> char {
    if 'A' <= c <= 'Z' {
        ((c as u32) + 32) as char
    } else {
        c
    }
}

/// ASCII lower case: `A`..=`Z` become `a`..=`z`, other characters stay.
pub open spec fn ascii_lower(s: Seq<char>) -> Seq<char> {
    s.map_values(|c: char| ascii_lower_char(c))
}

pub open spec fn ends_with(s: Seq<char>, suffix: Seq<char>) -> bool {
    suffix.len() <= s.len() && s.skip(s.len() - suffix.len()) == suffix
}

/// The file name with the extension: `name` itself when its ASCII
/// lower-case form already ends with `ext`, otherwise `name` + `ext`.
pub open spec fn with_extension(name: Seq<char>, ext: Seq<char>) -> Seq<char> {
    if ends_with(ascii_lower(name), ext) {
        name
    } else {
        name + ext
    }
}

fn to_lower_ascii(c: char) -> (r: char)
    ensures
        r == ascii_lower_char(c),
{
    if 'A' <= c && c <= 'Z' {
        ((c as u8) + 32) as char
    } else {
        c
    }
}

fn chars_of(s: &str) -> (r: Vec<char>)
    ensures
        r@ == s@,
{
    let mut v: Vec<char> = Vec::new();
    for c in it: s.chars()
        invariant
            it.seq() == s@,
            v@ == s@.take(it.index() as int),
    {
        assert(s@.take(it.index() + 1) =~= s@.take(it.index() as int).push(c));
        v.push(c);
    }
    assert(s@.take(s@.len() as int) =~= s@);
    v
}

/// Appends `ext` to `name` unless `name` already ends with it, ignoring
/// ASCII case in `name`.
pub fn ensure_extension(name: &str, ext: &str) -> (r: String)
    ensures
        r@ == with_extension(name@, ext@),
{
    let n = chars_of(name);
    let e = chars_of(ext);
    let mut matches = e.len() <= n.len();
    if matches {
        let offset = n.len() - e.len();
        let mut i: usize = 0;
        while i < e.len()
            invariant
                n@ == name@,
                e@ == ext@,
                e@.len() <= n@.len(),
                n@.len() <= usize::MAX,
                offset == n@.len() - e@.len(),
                i <= e@.len(),
                matches == (forall|j: int|
                    0 <= j < i ==> ascii_lower_char(n@[offset + j]) == e@[j]),
            decreases e@.len() - i,
        {
            if to_lower_ascii(n[offset + i]) != e[i] {
                matches = false;
            }
            i = i + 1;
        }
        proof {
            let lower = ascii_lower(name@);
            let tail = lower.skip(lower.len() - ext@.len());
            if matches {
                assert(tail =~= ext@);
            } else {
                if tail == ext@ {
                    assert(forall|j: int| 0 <= j < e@.len() ==> tail[j] == e@[j]);
                }
            }
        }
    }
    if matches {
        name.to_string()
    } else {
        crate::text::concat(name, ext)
    }
}

} // verus!

verus! {

// ---------------------------------------------------------------------------
// PowerPoint parts
// ---------------------------------------------------------------------------

/// The content-type override of slide `i`.
pub open spec fn slide_override(i: nat) -> Seq<char> {
    SLIDE_OVERRIDE_OPEN@ + decimal(i) + SLIDE_OVERRIDE_CLOSE@
}

/// The overrides of slides 1..=n, in order.
pub open spec fn slide_overrides(n: nat) -> Seq<char>
    decreases n,
{
    if n == 0 {
        Seq::empty()
    } else {
        slide_overrides((n - 1) as nat) + slide_override(n)
    }
}

pub open spec fn content_types_text(slide_count: nat) -> Seq<char> {
    CONTENT_TYPES_HEAD@ + slide_overrides(slide_count) + CONTENT_TYPES_CLOSE@
}

/// `[Content_Types].xml` for a deck of `slide_count` slides.
pub fn content_types_xml(slide_count: usize) -> (r: String)
    ensures
        r@ == content_types_text(slide_count as nat),
{
    let mut parts = CONTENT_TYPES_HEAD.to_string();
    let mut i: usize = 0;
    while i < slide_count
        invariant
            i <= slide_count,
            parts@ == CONTENT_TYPES_HEAD@ + slide_overrides(i as nat),
        decreases slide_count - i,
    {
        parts.append(SLIDE_OVERRIDE_OPEN);
        let n = decimal_string(i as u128 + 1);
        parts.append(n.as_str());
        parts.append(SLIDE_OVERRIDE_CLOSE);
        i = i + 1;
    }
    parts.append(CONTENT_TYPES_CLOSE);
    parts
}

/// `_rels/.rels`.
pub fn package_rels() -> (r: String)
    ensures
        r@ == PACKAGE_RELS_XML@,
{
    PACKAGE_RELS_XML.to_string()
}

/// The slide-id entry of the slide at position `i` (from 0): id `256 + i`,
/// relationship `rId{2 + i}`.
pub open spec fn slide_id_entry(i: nat) -> Seq<char> {
    SLIDE_ID_OPEN@ + decimal(256 + i) + SLIDE_ID_MIDDLE@ + decimal(2 + i) + SLIDE_ID_CLOSE@
}

pub open spec fn slide_id_list(n: nat) -> Seq<char>
    decreases n,
{
    if n == 0 {
        Seq::empty()
    } else {
        slide_id_list((n - 1) as nat) + slide_id_entry((n - 1) as nat)
    }
}

pub open spec fn presentation_text(slide_count: nat) -> Seq<char> {
    PRESENTATION_HEAD@ + slide_id_list(slide_count) + PRESENTATION_TAIL@
}

/// `ppt/presentation.xml` for a deck of `slide_count` slides.
pub fn presentation_xml(slide_count: usize) -> (r: String)
    ensures
        r@ == presentation_text(slide_count as nat),
{
    let mut xml = PRESENTATION_HEAD.to_string();
    let mut i: usize = 0;
    while i < slide_count
        invariant
            i <= slide_count,
            xml@ == PRESENTATION_HEAD@ + slide_id_list(i as nat),
        decreases slide_count - i,
    {
        xml.append(SLIDE_ID_OPEN);
        let id = decimal_string(256 + i as u128);
        xml.append(id.as_str());
        xml.append(SLIDE_ID_MIDDLE);
        let rid = decimal_string(2 + i as u128);
        xml.append(rid.as_str());
        xml.append(SLIDE_ID_CLOSE);
        i = i + 1;
    }
    xml.append(PRESENTATION_TAIL);
    xml
}

/// The relationship from the presentation to slide `i`: `rId{i + 1}`.
pub open spec fn slide_relationship(i: nat) -> Seq<char> {
    SLIDE_REL_OPEN@ + decimal(i + 1) + SLIDE_REL_MIDDLE@ + decimal(i) + SLIDE_REL_CLOSE@
}

pub open spec fn slide_relationships(n: nat) -> Seq<char>
    decreases n,
{
    if n == 0 {
        Seq::empty()
    } else {
        slide_relationships((n - 1) as nat) + slide_relationship(n)
    }
}

pub open spec fn presentation_rels_text(slide_count: nat) -> Seq<char> {
    PRESENTATION_RELS_HEAD@ + slide_relationships(slide_count) + RELATIONSHIPS_CLOSE@
}

/// `ppt/_rels/presentation.xml.rels` for a deck of `slide_count` slides.
pub fn presentation_rels(slide_count: usize) -> (r: String)
    ensures
        r@ == presentation_rels_text(slide_count as nat),
{
    let mut rels = PRESENTATION_RELS_HEAD.to_string();
    let mut i: usize = 0;
    while i < slide_count
        invariant
            i <= slide_count,
            rels@ == PRESENTATION_RELS_HEAD@ + slide_relationships(i as nat),
        decreases slide_count - i,
    {
        rels.append(SLIDE_REL_OPEN);
        let rid = decimal_string(i as u128 + 2);
        rels.append(rid.as_str());
        rels.append(SLIDE_REL_MIDDLE);
        let n = decimal_string(i as u128 + 1);
        rels.append(n.as_str());
        rels.append(SLIDE_REL_CLOSE);
        i = i + 1;
    }
    rels.append(RELATIONSHIPS_CLOSE);
    rels
}

/// `ppt/slideMasters/slideMaster1.xml`.
pub fn slide_master_xml() -> (r: String)
    ensures
        r@ == SLIDE_MASTER_XML@,
{
    SLIDE_MASTER_XML.to_string()
}

/// `ppt/slideMasters/_rels/slideMaster1.xml.rels`.
pub fn slide_master_rels() -> (r: String)
    ensures
        r@ == SLIDE_MASTER_RELS_XML@,
{
    SLIDE_MASTER_RELS_XML.to_string()
}

/// `ppt/slideLayouts/slideLayout1.xml`.
pub fn slide_layout_xml() -> (r: String)
    ensures
        r@ == SLIDE_LAYOUT_XML@,
{
    SLIDE_LAYOUT_XML.to_string()
}

/// `ppt/slideLayouts/_rels/slideLayout1.xml.rels`.
pub fn slide_layout_rels() -> (r: String)
    ensures
        r@ == SLIDE_LAYOUT_RELS_XML@,
{
    SLIDE_LAYOUT_RELS_XML.to_string()
}

/// `ppt/theme/theme1.xml`.
pub fn theme_xml() -> (r: String)
    ensures
        r@ == THEME_XML@,
{
    THEME_XML.to_string()
}

/// `ppt/slides/_rels/slide{n}.xml.rels`.
pub fn slide_rels() -> (r: String)
    ensures
        r@ == SLIDE_RELS_XML@,
{
    SLIDE_RELS_XML.to_string()
}

pub open spec fn bullet_paragraph(text: Seq<char>) -> Seq<char> {
    BULLET_OPEN@ + xml_escaped(text) + BULLET_CLOSE@
}

pub open spec fn bullet_paragraphs(bullets: Seq<String>) -> Seq<char>
    decreases bullets.len(),
{
    if bullets.len() == 0 {
        Seq::empty()
    } else {
        bullet_paragraphs(bullets.drop_last()) + bullet_paragraph(bullets.last()@)
    }
}

/// The XML of a slide: its escaped title, one paragraph per escaped
/// bullet, or an empty paragraph when there are no bullets.
pub open spec fn slide_text(title: Seq<char>, bullets: Seq<String>) -> Seq<char> {
    SLIDE_HEAD@ + xml_escaped(title) + SLIDE_MIDDLE@ + (if bullets.len() == 0 {
        EMPTY_BODY@
    } else {
        bullet_paragraphs(bullets)
    }) + SLIDE_TAIL@
}

/// `ppt/slides/slide{n}.xml` for one slide.
pub fn build_slide_xml(slide: &PowerpointSlide) -> (r: String)
    ensures
        r@ == slide_text(slide.title@, slide.bullets@),
{
    let title = xml_escape(slide.title.as_str());
    let mut body_paragraphs = String::new();
    let mut i: usize = 0;
    while i < slide.bullets.len()
        invariant
            i <= slide.bullets@.len(),
            body_paragraphs@ == bullet_paragraphs(slide.bullets@.take(i as int)),
        decreases slide.bullets@.len() - i,
    {
        assert(slide.bullets@.take(i + 1).drop_last() =~= slide.bullets@.take(i as int));
        body_paragraphs.append(BULLET_OPEN);
        let escaped = xml_escape(slide.bullets[i].as_str());
        body_paragraphs.append(escaped.as_str());
        body_paragraphs.append(BULLET_CLOSE);
        i = i + 1;
    }
    assert(slide.bullets@.take(slide.bullets@.len() as int) =~= slide.bullets@);
    if slide.bullets.len() == 0 {
        body_paragraphs.append(EMPTY_BODY);
    }
    let mut xml = SLIDE_HEAD.to_string();
    xml.append(title.as_str());
    xml.append(SLIDE_MIDDLE);
    xml.append(body_paragraphs.as_str());
    xml.append(SLIDE_TAIL);
    xml
}

} // verus!

verus! {

/// The parts of a deck of `n` slides that do not depend on the slides'
/// contents: path and XML text, in the order they are written.
pub open spec fn fixed_pptx_parts(n: nat) -> Seq<(Seq<char>, Seq<char>)> {
    seq![
        ("[Content_Types].xml"@, content_types_text(n)),
        ("_rels/.rels"@, PACKAGE_RELS_XML@),
        ("ppt/presentation.xml"@, presentation_text(n)),
        ("ppt/_rels/presentation.xml.rels"@, presentation_rels_text(n)),
        ("ppt/slideMasters/slideMaster1.xml"@, SLIDE_MASTER_XML@),
        ("ppt/slideMasters/_rels/slideMaster1.xml.rels"@, SLIDE_MASTER_RELS_XML@),
        ("ppt/slideLayouts/slideLayout1.xml"@, SLIDE_LAYOUT_XML@),
        ("ppt/slideLayouts/_rels/slideLayout1.xml.rels"@, SLIDE_LAYOUT_RELS_XML@),
        ("ppt/theme/theme1.xml"@, THEME_XML@),
    ]
}

pub open spec fn slide_path(n: nat) -> Seq<char> {
    "ppt/slides/slide"@ + decimal(n) + ".xml"@
}

pub open spec fn slide_rels_path(n: nat) -> Seq<char> {
    "ppt/slides/_rels/slide"@ + decimal(n) + ".xml.rels"@
}

/// For each slide in turn, its XML and its relationships.
pub open spec fn slide_parts(slides: Seq<PowerpointSlide>) -> Seq<(Seq<char>, Seq<char>)>
    decreases slides.len(),
{
    if slides.len() == 0 {
        Seq::empty()
    } else {
        let n = slides.len();
        slide_parts(slides.drop_last()) + seq![
            (slide_path(n), slide_text(slides.last().title@, slides.last().bullets@)),
            (slide_rels_path(n), SLIDE_RELS_XML@),
        ]
    }
}

/// Every part of the deck, in the order the package is written.
pub open spec fn pptx_parts(slides: Seq<PowerpointSlide>) -> Seq<(Seq<char>, Seq<char>)> {
    fixed_pptx_parts(slides.len()) + slide_parts(slides)
}

/// The parts as ZIP files: path and UTF-8 bytes.
pub open spec fn as_zip_files(parts: Seq<(Seq<char>, Seq<char>)>) -> Seq<(Seq<char>, Seq<u8>)> {
    parts.map_values(|p: (Seq<char>, Seq<char>)| (p.0, vstd::utf8::encode_utf8(p.1)))
}

pub open spec fn starts_with(s: Seq<char>, prefix: Seq<char>) -> bool {
    prefix.len() <= s.len() && s.take(prefix.len() as int) == prefix
}

fn prefixed(prefix: &str, detail: &str) -> (r: String)
    ensures
        r@ == prefix@ + detail@,
        starts_with(r@, prefix@),
{
    let r = crate::text::concat(prefix, detail);
    assert(r@.take(prefix@.len() as int) =~= prefix@);
    r
}

/// Adds one file with the given text to the archive.
fn write_zip(zip: &mut crate::zip_archive::ZipBuffer, path: &str, contents: String) -> (r: Result<
    (),
    String,
>)
    ensures
        crate::zip_archive::zip_files_fit(crate::zip_archive::zip_entries(*old(zip)))
            && vstd::utf8::encode_utf8(contents@).len() < 0x8000_0000 ==> r is Ok
            && crate::zip_archive::zip_files_fit(crate::zip_archive::zip_entries(*final(zip))),
        r is Ok ==> crate::zip_archive::zip_entries(*final(zip)) == crate::zip_archive::zip_entries(
            *old(zip),
        ).push((path@, vstd::utf8::encode_utf8(contents@))),
        r matches Err(e) ==> zip_step_error(e@, path@),
{
    if let Err(e) = crate::zip_archive::zip_start_deflated_file(zip, path) {
        let mut detail = path.to_string();
        detail.append(" failed: ");
        let text = crate::zip_archive::zip_error_text(&e);
        detail.append(text.as_str());
        let msg = prefixed("zip start_file ", detail.as_str());
        assert(msg@ =~= "zip start_file "@ + path@ + " failed: "@ + text@);
        return Err(msg);
    }
    let ghost started = crate::zip_archive::zip_entries(*zip);
    proof {
        broadcast use vstd::utf8::group_utf8_lib;

        if crate::zip_archive::zip_files_fit(crate::zip_archive::zip_entries(*old(zip))) {
            assert(started.last().1.len() == 0);
        }
    }
    if let Err(e) = crate::zip_archive::zip_write_all(zip, contents.as_str().as_bytes()) {
        let mut detail = path.to_string();
        detail.append(" failed: ");
        let text = crate::zip_archive::io_error_text(&e);
        detail.append(text.as_str());
        let msg = prefixed("zip write ", detail.as_str());
        assert(msg@ =~= "zip write "@ + path@ + " failed: "@ + text@);
        return Err(msg);
    }
    assert(Seq::<u8>::empty() + vstd::utf8::encode_utf8(contents@) =~= vstd::utf8::encode_utf8(
        contents@,
    ));
    proof {
        let before = crate::zip_archive::zip_entries(*old(zip));
        let added = before.push((path@, vstd::utf8::encode_utf8(contents@)));
        if crate::zip_archive::zip_files_fit(before) && vstd::utf8::encode_utf8(contents@).len()
            < 0x8000_0000 {
            assert forall|i: int| 0 <= i < added.len() implies (#[trigger] added[i]).1.len()
                < 0x8000_0000 by {
                if i < before.len() {
                    assert(added[i] == before[i]);
                }
            }
        }
    }
    assert(started.update(started.len() - 1, (path@, vstd::utf8::encode_utf8(contents@)))
        =~= crate::zip_archive::zip_entries(*old(zip)).push(
        (path@, vstd::utf8::encode_utf8(contents@)),
    ));
    Ok(())
}

/// The error of adding the file `path`: the step that failed, the path,
/// and the writer's own message.
pub open spec fn zip_step_error(e: Seq<char>, path: Seq<char>) -> bool {
    ||| exists|t: Seq<char>| e == #[trigger] ("zip start_file "@ + path + " failed: "@ + t)
    ||| exists|t: Seq<char>| e == #[trigger] ("zip write "@ + path + " failed: "@ + t)
}

/// The error of packaging a deck: adding one of its parts failed, or
/// finishing the archive did.
pub open spec fn pptx_error(slides: Seq<PowerpointSlide>, e: Seq<char>) -> bool {
    ||| exists|k: int|
        0 <= k < pptx_parts(slides).len() && zip_step_error(e, #[trigger] pptx_parts(slides)[k].0)
    ||| exists|t: Seq<char>| e == #[trigger] ("pptx finalize failed: "@ + t)
}

/// Whether every part of the deck, as UTF-8, holds fewer than 2^31 bytes,
/// so that the ZIP writer takes it.
pub open spec fn pptx_fits(slides: Seq<PowerpointSlide>) -> bool {
    crate::zip_archive::zip_files_fit(as_zip_files(pptx_parts(slides)))
}

proof fn lemma_pptx_part_fits(slides: Seq<PowerpointSlide>, k: int)
    requires
        pptx_fits(slides),
        0 <= k < pptx_parts(slides).len(),
    ensures
        vstd::utf8::encode_utf8(pptx_parts(slides)[k].1).len() < 0x8000_0000,
{
    let files = as_zip_files(pptx_parts(slides));
    assert(files[k] == (pptx_parts(slides)[k].0, vstd::utf8::encode_utf8(pptx_parts(slides)[k].1)));
}

/// When the deck fits, each of its fixed parts does.
proof fn lemma_fixed_parts_fit(slides: Seq<PowerpointSlide>)
    requires
        pptx_fits(slides),
    ensures
        forall|k: int|
            0 <= k < 9 ==> vstd::utf8::encode_utf8(#[trigger] fixed_pptx_parts(slides.len())[k].1).len()
                < 0x8000_0000,
{
    lemma_slide_parts_len(slides);
    assert forall|k: int| 0 <= k < 9 implies vstd::utf8::encode_utf8(
        #[trigger] fixed_pptx_parts(slides.len())[k].1,
    ).len() < 0x8000_0000 by {
        lemma_pptx_part_fits(slides, k);
        assert(pptx_parts(slides)[k] == fixed_pptx_parts(slides.len())[k]);
    }
}

proof fn lemma_slide_parts_len(slides: Seq<PowerpointSlide>)
    ensures
        slide_parts(slides).len() == 2 * slides.len(),
    decreases slides.len(),
{
    if slides.len() > 0 {
        lemma_slide_parts_len(slides.drop_last());
    }
}

/// When the deck fits, the parts of slide `i` do.
proof fn lemma_slide_fits(slides: Seq<PowerpointSlide>, i: int)
    requires
        pptx_fits(slides),
        0 <= i < slides.len(),
    ensures
        vstd::utf8::encode_utf8(slide_text(slides[i].title@, slides[i].bullets@)).len() < 0x8000_0000,
        vstd::utf8::encode_utf8(SLIDE_RELS_XML@).len() < 0x8000_0000,
{
    lemma_slide_parts_at(slides, i);
    lemma_pptx_part_fits(slides, 9 + 2 * i);
    lemma_pptx_part_fits(slides, 10 + 2 * i);
    assert(pptx_parts(slides)[9 + 2 * i] == slide_parts(slides)[2 * i]);
    assert(pptx_parts(slides)[10 + 2 * i] == slide_parts(slides)[2 * i + 1]);
}

/// Packages the deck: every part of `pptx_parts`, in order, Deflate
/// compressed, in one ZIP archive. It succeeds whenever every part fits a
/// ZIP entry.
pub fn build_pptx(slides: &[PowerpointSlide]) -> (r: Result<Vec<u8>, String>)
    ensures
        pptx_fits(slides@) ==> r is Ok,
        r matches Ok(bytes) ==> bytes@ == crate::zip_archive::zip_deflated_archive(
            as_zip_files(pptx_parts(slides@)),
        ),
        r matches Err(e) ==> pptx_error(slides@, e@),
{
    let mut zip = crate::zip_archive::zip_writer_new();
    let n = slides.len();
    let ghost fits = pptx_fits(slides@);
    let ghost fixed = fixed_pptx_parts(n as nat);
    proof {
        if fits {
            lemma_fixed_parts_fit(slides@);
        }
    }
    assert(fits ==> vstd::utf8::encode_utf8(fixed[0].1).len() < 0x8000_0000);
    assert(pptx_parts(slides@)[0].0 == "[Content_Types].xml"@);
    write_zip(&mut zip, "[Content_Types].xml", content_types_xml(n))?;
    assert(fits ==> vstd::utf8::encode_utf8(fixed[1].1).len() < 0x8000_0000);
    assert(pptx_parts(slides@)[1].0 == "_rels/.rels"@);
    write_zip(&mut zip, "_rels/.rels", package_rels())?;
    assert(fits ==> vstd::utf8::encode_utf8(fixed[2].1).len() < 0x8000_0000);
    assert(pptx_parts(slides@)[2].0 == "ppt/presentation.xml"@);
    write_zip(&mut zip, "ppt/presentation.xml", presentation_xml(n))?;
    assert(fits ==> vstd::utf8::encode_utf8(fixed[3].1).len() < 0x8000_0000);
    assert(pptx_parts(slides@)[3].0 == "ppt/_rels/presentation.xml.rels"@);
    write_zip(&mut zip, "ppt/_rels/presentation.xml.rels", presentation_rels(n))?;
    assert(fits ==> vstd::utf8::encode_utf8(fixed[4].1).len() < 0x8000_0000);
    assert(pptx_parts(slides@)[4].0 == "ppt/slideMasters/slideMaster1.xml"@);
    write_zip(&mut zip, "ppt/slideMasters/slideMaster1.xml", slide_master_xml())?;
    assert(fits ==> vstd::utf8::encode_utf8(fixed[5].1).len() < 0x8000_0000);
    assert(pptx_parts(slides@)[5].0 == "ppt/slideMasters/_rels/slideMaster1.xml.rels"@);
    write_zip(&mut zip, "ppt/slideMasters/_rels/slideMaster1.xml.rels", slide_master_rels())?;
    assert(fits ==> vstd::utf8::encode_utf8(fixed[6].1).len() < 0x8000_0000);
    assert(pptx_parts(slides@)[6].0 == "ppt/slideLayouts/slideLayout1.xml"@);
    write_zip(&mut zip, "ppt/slideLayouts/slideLayout1.xml", slide_layout_xml())?;
    assert(fits ==> vstd::utf8::encode_utf8(fixed[7].1).len() < 0x8000_0000);
    assert(pptx_parts(slides@)[7].0 == "ppt/slideLayouts/_rels/slideLayout1.xml.rels"@);
    write_zip(&mut zip, "ppt/slideLayouts/_rels/slideLayout1.xml.rels", slide_layout_rels())?;
    assert(fits ==> vstd::utf8::encode_utf8(fixed[8].1).len() < 0x8000_0000);
    assert(pptx_parts(slides@)[8].0 == "ppt/theme/theme1.xml"@);
    write_zip(&mut zip, "ppt/theme/theme1.xml", theme_xml())?;
    assert(crate::zip_archive::zip_entries(zip) =~= as_zip_files(fixed_pptx_parts(n as nat)));
    let mut idx: usize = 0;
    while idx < n
        invariant
            n == slides@.len(),
            idx <= n,
            fits == pptx_fits(slides@),
            crate::zip_archive::zip_entries(zip) == as_zip_files(
                fixed_pptx_parts(n as nat) + slide_parts(slides@.take(idx as int)),
            ),
            fits ==> crate::zip_archive::zip_files_fit(crate::zip_archive::zip_entries(zip)),
        decreases n - idx,
    {
        proof {
            if fits {
                lemma_slide_fits(slides@, idx as int);
            }
        }
        let slide_num = decimal_string(idx as u128 + 1);
        let mut path = "ppt/slides/slide".to_string();
        path.append(slide_num.as_str());
        path.append(".xml");
        proof {
            lemma_slide_parts_at(slides@, idx as int);
            assert(path@ =~= slide_path((idx + 1) as nat));
            assert(pptx_parts(slides@)[9 + 2 * idx].0 == path@);
        }
        write_zip(&mut zip, path.as_str(), build_slide_xml(&slides[idx]))?;
        let mut rels_path = "ppt/slides/_rels/slide".to_string();
        rels_path.append(slide_num.as_str());
        rels_path.append(".xml.rels");
        proof {
            assert(rels_path@ =~= slide_rels_path((idx + 1) as nat));
            assert(pptx_parts(slides@)[10 + 2 * idx].0 == rels_path@);
        }
        write_zip(&mut zip, rels_path.as_str(), slide_rels())?;
        proof {
            let before = slides@.take(idx as int);
            let after = slides@.take(idx + 1);
            assert(after.drop_last() =~= before);
            assert(fixed_pptx_parts(n as nat) + slide_parts(after) =~= fixed_pptx_parts(n as nat)
                + slide_parts(before) + seq![
                (slide_path((idx + 1) as nat), slide_text(slides@[idx as int].title@, slides@[idx as int].bullets@)),
                (slide_rels_path((idx + 1) as nat), SLIDE_RELS_XML@),
            ]);
        }
        idx = idx + 1;
    }
    assert(slides@.take(n as int) =~= slides@);
    match crate::zip_archive::zip_finish(zip) {
        Ok(bytes) => Ok(bytes),
        Err(e) => {
            let text = crate::zip_archive::zip_error_text(&e);
            let msg = prefixed("pptx finalize failed: ", text.as_str());
            assert(msg@ == "pptx finalize failed: "@ + text@);
            Err(msg)
        },
    }
}

} // verus!

verus! {

pub const POWERPOINT_NEEDS_SLIDE: &'static str = "create_powerpoint requires at least one slide";

/// Builds the deck and uploads it as `name` with a `.pptx` extension.
pub fn create_powerpoint(
    token_configured: bool,
    parent_folder_id: Option<&str>,
    name: &str,
    slides: &[PowerpointSlide],
) -> (r: Result<crate::graph::HttpRequest, String>)
    ensures
        slides@.len() == 0 ==> crate::api::fails_with(r, POWERPOINT_NEEDS_SLIDE@),
        slides@.len() != 0 && pptx_fits(slides@) ==> crate::api::upload_outcome(
            r,
            token_configured,
            crate::api::opt_str_view(parent_folder_id),
            with_extension(name@, ".pptx"@),
            crate::zip_archive::zip_deflated_archive(as_zip_files(pptx_parts(slides@))),
            crate::graph::PPTX_MIME@,
        ),
        slides@.len() != 0 && !pptx_fits(slides@) ==> (r matches Err(e) && pptx_error(slides@, e@))
            || crate::api::upload_outcome(
            r,
            token_configured,
            crate::api::opt_str_view(parent_folder_id),
            with_extension(name@, ".pptx"@),
            crate::zip_archive::zip_deflated_archive(as_zip_files(pptx_parts(slides@))),
            crate::graph::PPTX_MIME@,
        ),
{
    if slides.len() == 0 {
        return Err(POWERPOINT_NEEDS_SLIDE.to_string());
    }
    let file_name = ensure_extension(name, ".pptx");
    let bytes = build_pptx(slides)?;
    crate::api::upload_to_drive(
        token_configured,
        parent_folder_id,
        file_name.as_str(),
        bytes,
        crate::graph::PPTX_MIME,
    )
}

} // verus!

verus! {

// ---------------------------------------------------------------------------
// Laws of the text helpers
// ---------------------------------------------------------------------------

pub open spec fn is_markup_char(c: char) -> bool {
    c == '&' || c == '<' || c == '>' || c == '"' || c == '\''
}

/// Reading XML text back: the five entities become their characters,
/// every other character stays.
pub open spec fn xml_unescaped(s: Seq<char>) -> Seq<char>
    decreases s.len(),
{
    if s.len() == 0 {
        Seq::empty()
    } else if s.len() >= 5 && s.take(5) == "&amp;"@ {
        seq!['&'] + xml_unescaped(s.skip(5))
    } else if s.len() >= 4 && s.take(4) == "&lt;"@ {
        seq!['<'] + xml_unescaped(s.skip(4))
    } else if s.len() >= 4 && s.take(4) == "&gt;"@ {
        seq!['>'] + xml_unescaped(s.skip(4))
    } else if s.len() >= 6 && s.take(6) == "&quot;"@ {
        seq!['"'] + xml_unescaped(s.skip(6))
    } else if s.len() >= 6 && s.take(6) == "&apos;"@ {
        seq!['\''] + xml_unescaped(s.skip(6))
    } else {
        seq![s[0]] + xml_unescaped(s.skip(1))
    }
}

proof fn lemma_xml_escaped_front(s: Seq<char>)
    requires
        s.len() > 0,
    ensures
        xml_escaped(s) == escape_char(s[0]) + xml_escaped(s.drop_first()),
{
    let f = |c: char| escape_char(c);
    assert(s.map_values(f).drop_first() =~= s.drop_first().map_values(f));
}

proof fn lemma_unescape_one(c: char, rest: Seq<char>)
    ensures
        xml_unescaped(escape_char(c) + rest) == seq![c] + xml_unescaped(rest),
{
    reveal_strlit("&amp;");
    reveal_strlit("&lt;");
    reveal_strlit("&gt;");
    reveal_strlit("&quot;");
    reveal_strlit("&apos;");
    let s = escape_char(c) + rest;
    let e = escape_char(c);
    assert(s.skip(e.len() as int) =~= rest);
    assert(s.take(e.len() as int) =~= e);
    if !is_markup_char(c) {
        assert(s[0] == c);
        assert(s.skip(1) =~= rest);
        if s.len() >= 5 {
            assert(s.take(5)[0] != "&amp;"@[0]);
        }
        if s.len() >= 4 {
            assert(s.take(4)[0] != "&lt;"@[0]);
            assert(s.take(4)[0] != "&gt;"@[0]);
        }
        if s.len() >= 6 {
            assert(s.take(6)[0] != "&quot;"@[0]);
            assert(s.take(6)[0] != "&apos;"@[0]);
        }
    } else if c == '<' {
        if s.len() >= 5 {
            assert(s.take(5)[1] != "&amp;"@[1]);
        }
    } else if c == '>' {
        if s.len() >= 5 {
            assert(s.take(5)[1] != "&amp;"@[1]);
        }
        assert(s.take(4)[1] != "&lt;"@[1]);
    } else if c == '"' {
        assert(s.take(5)[1] != "&amp;"@[1]);
        assert(s.take(4)[1] != "&lt;"@[1]);
        assert(s.take(4)[1] != "&gt;"@[1]);
    } else if c == '\'' {
        assert(s.take(5)[2] != "&amp;"@[2]);
        assert(s.take(4)[1] != "&lt;"@[1]);
        assert(s.take(4)[1] != "&gt;"@[1]);
        assert(s.take(6)[1] != "&quot;"@[1]);
    }
}

/// Reading the output of `xml_escape(s)` as XML text gives back `s`.
pub proof fn lemma_xml_escape_round_trip(s: Seq<char>)
    ensures
        xml_unescaped(xml_escaped(s)) == s,
    decreases s.len(),
{
    if s.len() == 0 {
        assert(xml_escaped(s) =~= Seq::<char>::empty());
    } else {
        lemma_xml_escaped_front(s);
        lemma_unescape_one(s[0], xml_escaped(s.drop_first()));
        lemma_xml_escape_round_trip(s.drop_first());
        assert(seq![s[0]] + s.drop_first() =~= s);
    }
}

/// The output of `xml_escape` holds no `<`, `>`, `"` or `'`, so it can
/// stand in element text and in quoted attribute values.
pub proof fn lemma_xml_escape_has_no_markup(s: Seq<char>)
    ensures
        forall|i: int|
            0 <= i < xml_escaped(s).len() ==> #[trigger] xml_escaped(s)[i] != '<'
                && xml_escaped(s)[i] != '>' && xml_escaped(s)[i] != '"' && xml_escaped(s)[i]
                != '\'',
    decreases s.len(),
{
    reveal_strlit("&amp;");
    reveal_strlit("&lt;");
    reveal_strlit("&gt;");
    reveal_strlit("&quot;");
    reveal_strlit("&apos;");
    if s.len() == 0 {
        assert(xml_escaped(s) =~= Seq::<char>::empty());
    } else {
        lemma_xml_escaped_front(s);
        lemma_xml_escape_has_no_markup(s.drop_first());
        let e = escape_char(s[0]);
        let rest = xml_escaped(s.drop_first());
        assert forall|i: int| 0 <= i < e.len() implies e[i] != '<' && e[i] != '>' && e[i] != '"'
            && e[i] != '\'' by {}
        assert forall|i: int| 0 <= i < (e + rest).len() implies #[trigger] (e + rest)[i] != '<'
            && (e + rest)[i] != '>' && (e + rest)[i] != '"' && (e + rest)[i] != '\'' by {
            if i >= e.len() {
                assert((e + rest)[i] == rest[i - e.len()]);
            }
        }
    }
}

/// `e` occurs in `t` at position `i`.
pub open spec fn occurs_at(t: Seq<char>, i: int, e: Seq<char>) -> bool {
    0 <= i && i + e.len() <= t.len() && t.subrange(i, i + e.len()) == e
}

/// One of the five XML entities begins at position `i` of `t`.
pub open spec fn entity_at(t: Seq<char>, i: int) -> bool {
    ||| occurs_at(t, i, "&amp;"@)
    ||| occurs_at(t, i, "&lt;"@)
    ||| occurs_at(t, i, "&gt;"@)
    ||| occurs_at(t, i, "&quot;"@)
    ||| occurs_at(t, i, "&apos;"@)
}

proof fn lemma_entity_at_shift(e: Seq<char>, rest: Seq<char>, i: int)
    requires
        0 <= i < rest.len(),
        entity_at(rest, i),
    ensures
        entity_at(e + rest, e.len() + i),
{
    let t = e + rest;
    let j = e.len() + i;
    assert forall|x: Seq<char>| occurs_at(rest, i, x) implies occurs_at(t, j, x) by {
        assert(t.subrange(j, j + x.len()) =~= rest.subrange(i, i + x.len()));
    }
}

/// Every `&` in the output of `xml_escape` begins one of the five
/// entities `&amp;`, `&lt;`, `&gt;`, `&quot;`, `&apos;`: the output reads
/// back unambiguously.
pub proof fn lemma_xml_escape_ampersands_begin_entities(s: Seq<char>)
    ensures
        forall|i: int|
            0 <= i < xml_escaped(s).len() && #[trigger] xml_escaped(s)[i] == '&' ==> entity_at(
                xml_escaped(s),
                i,
            ),
    decreases s.len(),
{
    reveal_strlit("&amp;");
    reveal_strlit("&lt;");
    reveal_strlit("&gt;");
    reveal_strlit("&quot;");
    reveal_strlit("&apos;");
    if s.len() == 0 {
        assert(xml_escaped(s) =~= Seq::<char>::empty());
    } else {
        lemma_xml_escaped_front(s);
        lemma_xml_escape_ampersands_begin_entities(s.drop_first());
        let e = escape_char(s[0]);
        let rest = xml_escaped(s.drop_first());
        let t = e + rest;
        assert(xml_escaped(s) == t);
        assert forall|i: int| 0 <= i < t.len() && #[trigger] t[i] == '&' implies entity_at(t, i) by {
            if i < e.len() {
                assert(t[i] == e[i]);
                assert(i == 0);
                assert(t.subrange(0, e.len() as int) =~= e);
                if s[0] == '&' {
                    assert(occurs_at(t, 0, "&amp;"@));
                } else if s[0] == '<' {
                    assert(occurs_at(t, 0, "&lt;"@));
                } else if s[0] == '>' {
                    assert(occurs_at(t, 0, "&gt;"@));
                } else if s[0] == '"' {
                    assert(occurs_at(t, 0, "&quot;"@));
                } else {
                    assert(occurs_at(t, 0, "&apos;"@));
                }
            } else {
                assert(t[i] == rest[i - e.len()]);
                lemma_entity_at_shift(e, rest, i - e.len());
            }
        }
    }
}

/// Text without markup characters is left as it is by `xml_escape`.
pub proof fn lemma_xml_escape_keeps_plain_text(s: Seq<char>)
    requires
        forall|i: int| 0 <= i < s.len() ==> !is_markup_char(#[trigger] s[i]),
    ensures
        xml_escaped(s) == s,
    decreases s.len(),
{
    if s.len() == 0 {
        assert(xml_escaped(s) =~= Seq::<char>::empty());
    } else {
        lemma_xml_escaped_front(s);
        lemma_xml_escape_keeps_plain_text(s.drop_first());
        assert(seq![s[0]] + s.drop_first() =~= s);
    }
}

/// After `ensure_extension`, the name's ASCII lower-case form ends with the
/// extension and begins with the name given (for an extension without
/// upper-case ASCII letters, as `.docx` and `.pptx`).
pub proof fn lemma_with_extension_ends_with(name: Seq<char>, ext: Seq<char>)
    requires
        ascii_lower(ext) == ext,
    ensures
        ends_with(ascii_lower(with_extension(name, ext)), ext),
        with_extension(name, ext).take(name.len() as int) == name,
{
    if !ends_with(ascii_lower(name), ext) {
        let full = name + ext;
        assert(ascii_lower(full) =~= ascii_lower(name) + ascii_lower(ext));
        assert(ascii_lower(full).skip(full.len() - ext.len()) =~= ext);
        assert(full.take(name.len() as int) =~= name);
    } else {
        assert(name.take(name.len() as int) =~= name);
    }
}

/// Giving a file name its extension twice is the same as once (for an
/// extension without upper-case ASCII letters).
pub proof fn lemma_with_extension_idempotent(name: Seq<char>, ext: Seq<char>)
    requires
        ascii_lower(ext) == ext,
    ensures
        with_extension(with_extension(name, ext), ext) == with_extension(name, ext),
{
    lemma_with_extension_ends_with(name, ext);
}

/// `sub` occurs in `s` as a contiguous run.
pub open spec fn text_contains(s: Seq<char>, sub: Seq<char>) -> bool {
    exists|p: int| 0 <= p && p + sub.len() <= s.len() && #[trigger] s.subrange(p, p + sub.len()) == sub
}

proof fn lemma_contains_middle(head: Seq<char>, mid: Seq<char>, sub: Seq<char>, tail: Seq<char>, at: int)
    requires
        0 <= at && at + sub.len() <= mid.len(),
        mid.subrange(at, at + sub.len()) == sub,
    ensures
        text_contains(head + mid + tail, sub),
{
    let s = head + mid + tail;
    let p = head.len() + at;
    assert(s.subrange(p, p + sub.len()) =~= sub);
}

proof fn lemma_slide_id_list_entry(n: nat, i: nat)
    requires
        i < n,
    ensures
        slide_id_list(i).len() + slide_id_entry(i).len() <= slide_id_list(n).len(),
        slide_id_list(n).subrange(
            slide_id_list(i).len() as int,
            slide_id_list(i).len() + slide_id_entry(i).len() as int,
        ) == slide_id_entry(i),
    decreases n,
{
    let a = slide_id_list(i).len() as int;
    let b = a + slide_id_entry(i).len();
    if i + 1 == n {
        assert(slide_id_list(n).subrange(a, b) =~= slide_id_entry(i));
    } else {
        lemma_slide_id_list_entry((n - 1) as nat, i);
        assert(slide_id_list(n).subrange(a, b) =~= slide_id_list((n - 1) as nat).subrange(a, b));
    }
}

proof fn lemma_slide_relationships_entry(n: nat, k: nat)
    requires
        1 <= k <= n,
    ensures
        slide_relationships((k - 1) as nat).len() + slide_relationship(k).len()
            <= slide_relationships(n).len(),
        slide_relationships(n).subrange(
            slide_relationships((k - 1) as nat).len() as int,
            slide_relationships((k - 1) as nat).len() + slide_relationship(k).len() as int,
        ) == slide_relationship(k),
    decreases n,
{
    let a = slide_relationships((k - 1) as nat).len() as int;
    let b = a + slide_relationship(k).len();
    if k == n {
        assert(slide_relationships(n).subrange(a, b) =~= slide_relationship(k));
    } else {
        lemma_slide_relationships_entry((n - 1) as nat, k);
        assert(slide_relationships(n).subrange(a, b) =~= slide_relationships((n - 1) as nat).subrange(
            a,
            b,
        ));
    }
}

proof fn lemma_slide_overrides_entry(n: nat, k: nat)
    requires
        1 <= k <= n,
    ensures
        slide_overrides((k - 1) as nat).len() + slide_override(k).len() <= slide_overrides(n).len(),
        slide_overrides(n).subrange(
            slide_overrides((k - 1) as nat).len() as int,
            slide_overrides((k - 1) as nat).len() + slide_override(k).len() as int,
        ) == slide_override(k),
    decreases n,
{
    let a = slide_overrides((k - 1) as nat).len() as int;
    let b = a + slide_override(k).len();
    if k == n {
        assert(slide_overrides(n).subrange(a, b) =~= slide_override(k));
    } else {
        lemma_slide_overrides_entry((n - 1) as nat, k);
        assert(slide_overrides(n).subrange(a, b) =~= slide_overrides((n - 1) as nat).subrange(a, b));
    }
}

proof fn lemma_slide_parts_at(slides: Seq<PowerpointSlide>, i: int)
    requires
        0 <= i < slides.len(),
    ensures
        slide_parts(slides).len() == 2 * slides.len(),
        slide_parts(slides)[2 * i] == (
            slide_path((i + 1) as nat),
            slide_text(slides[i].title@, slides[i].bullets@),
        ),
        slide_parts(slides)[2 * i + 1] == (slide_rels_path((i + 1) as nat), SLIDE_RELS_XML@),
    decreases slides.len(),
{
    let rest = slides.drop_last();
    let n = slides.len();
    let tail = seq![
        (slide_path(n), slide_text(slides.last().title@, slides.last().bullets@)),
        (slide_rels_path(n), SLIDE_RELS_XML@),
    ];
    assert(slide_parts(slides) == slide_parts(rest) + tail);
    if rest.len() > 0 {
        lemma_slide_parts_at(rest, 0);
    } else {
        assert(slide_parts(rest) =~= Seq::<(Seq<char>, Seq<char>)>::empty());
    }
    if i + 1 < n {
        lemma_slide_parts_at(rest, i);
        assert(rest[i] == slides[i]);
        assert(slide_parts(slides)[2 * i] == slide_parts(rest)[2 * i]);
        assert(slide_parts(slides)[2 * i + 1] == slide_parts(rest)[2 * i + 1]);
    } else {
        assert(slides.last() == slides[i]);
        assert(slide_parts(slides)[2 * i] == tail[0]);
        assert(slide_parts(slides)[2 * i + 1] == tail[1]);
    }
}

/// The relationships of the presentation, in order: the slide master,
/// then one per slide.
pub open spec fn presentation_relationships(n: nat) -> Seq<Seq<char>> {
    seq![MASTER_RELATIONSHIP@] + Seq::new(n, |i: int| slide_relationship((i + 1) as nat))
}

proof fn lemma_slide_relationships_flat(n: nat)
    ensures
        slide_relationships(n) == Seq::new(n, |i: int| slide_relationship((i + 1) as nat)).flatten(),
    decreases n,
{
    let f = |i: int| slide_relationship((i + 1) as nat);
    if n == 0 {
        assert(Seq::new(0, f) =~= Seq::<Seq<char>>::empty());
    } else {
        lemma_slide_relationships_flat((n - 1) as nat);
        assert(Seq::new(n, f) =~= Seq::new((n - 1) as nat, f).push(slide_relationship(n)));
        Seq::new((n - 1) as nat, f).lemma_flatten_push(slide_relationship(n));
    }
}

/// The presentation relationships are exactly `n + 1` entries between the
/// opening and the closing of the list: `rId1` to the slide master, then
/// `rId{k + 1}` to slide `k` for each k in 1..=n; and the presentation
/// refers to the master by `rId1`.
pub proof fn lemma_presentation_relationships(n: nat)
    ensures
        presentation_rels_text(n) == PRESENTATION_RELS_OPEN@ + presentation_relationships(n).flatten()
            + RELATIONSHIPS_CLOSE@,
        presentation_relationships(n).len() == n + 1,
        presentation_relationships(n)[0] == MASTER_RELATIONSHIP@,
        forall|k: int|
            1 <= k <= n ==> #[trigger] presentation_relationships(n)[k] == SLIDE_REL_OPEN@ + decimal(
                (k + 1) as nat,
            ) + SLIDE_REL_MIDDLE@ + decimal(k as nat) + SLIDE_REL_CLOSE@,
        text_contains(presentation_text(n), MASTER_ID_ENTRY@),
{
    let rels = presentation_relationships(n);
    let f = |i: int| slide_relationship((i + 1) as nat);
    lemma_slide_relationships_flat(n);
    assert(rels.drop_first() =~= Seq::new(n, f));
    assert(rels.flatten() == MASTER_RELATIONSHIP@ + Seq::new(n, f).flatten());
    reveal_strlit(
        "<?xml version=\"1.0\" encoding=\"UTF-8\" standalone=\"yes\"?>\n<Relationships xmlns=\"http://schemas.openxmlformats.org/package/2006/relationships\">\n<Relationship Id=\"rId1\" Type=\"http://schemas.openxmlformats.org/officeDocument/2006/relationships/slideMaster\" Target=\"slideMasters/slideMaster1.xml\"/>\n",
    );
    reveal_strlit(
        "<?xml version=\"1.0\" encoding=\"UTF-8\" standalone=\"yes\"?>\n<Relationships xmlns=\"http://schemas.openxmlformats.org/package/2006/relationships\">\n",
    );
    reveal_strlit(
        "<Relationship Id=\"rId1\" Type=\"http://schemas.openxmlformats.org/officeDocument/2006/relationships/slideMaster\" Target=\"slideMasters/slideMaster1.xml\"/>\n",
    );
    reveal_strlit(
        "<?xml version=\"1.0\" encoding=\"UTF-8\" standalone=\"yes\"?>\n<p:presentation xmlns:a=\"http://schemas.openxmlformats.org/drawingml/2006/main\" xmlns:r=\"http://schemas.openxmlformats.org/officeDocument/2006/relationships\" xmlns:p=\"http://schemas.openxmlformats.org/presentationml/2006/main\" saveSubsetFonts=\"1\">\n<p:sldMasterIdLst><p:sldMasterId id=\"2147483648\" r:id=\"rId1\"/></p:sldMasterIdLst>\n<p:sldIdLst>\n",
    );
    reveal_strlit(
        "<p:sldMasterId id=\"2147483648\" r:id=\"rId1\"/>",
    );
    assert(PRESENTATION_RELS_HEAD@ =~= PRESENTATION_RELS_OPEN@ + MASTER_RELATIONSHIP@);
    assert forall|k: int| 1 <= k <= n implies #[trigger] rels[k] == SLIDE_REL_OPEN@ + decimal(
        (k + 1) as nat,
    ) + SLIDE_REL_MIDDLE@ + decimal(k as nat) + SLIDE_REL_CLOSE@ by {
        assert(rels[k] == Seq::new(n, f)[k - 1]);
        assert(((k - 1) + 1) as nat == k as nat);
    }
    let head = PRESENTATION_HEAD@;
    let needle = MASTER_ID_ENTRY@;
    let p = 322int;
    assert(head.subrange(p, p + needle.len()) =~= needle);
    lemma_contains_middle(Seq::empty(), head, needle, slide_id_list(n) + PRESENTATION_TAIL@, p);
    assert(Seq::<char>::empty() + head + (slide_id_list(n) + PRESENTATION_TAIL@) =~= presentation_text(n));
}

/// Slide `k` of a deck (k = position + 1) is linked throughout the
/// package: the presentation lists it as id `255 + k` under relationship
/// `rId{k + 1}`, that relationship targets `slides/slide{k}.xml`, the
/// content types declare that part as a slide, and the archive holds the
/// slide's XML under `ppt/slides/slide{k}.xml`, followed by its
/// relationships.
pub proof fn lemma_pptx_slide_is_linked(slides: Seq<PowerpointSlide>, i: int)
    requires
        0 <= i < slides.len(),
    ensures
        text_contains(
            presentation_text(slides.len()),
            SLIDE_ID_OPEN@ + decimal((256 + i) as nat) + SLIDE_ID_MIDDLE@ + decimal((i + 2) as nat)
                + SLIDE_ID_CLOSE@,
        ),
        text_contains(
            presentation_rels_text(slides.len()),
            SLIDE_REL_OPEN@ + decimal((i + 2) as nat) + SLIDE_REL_MIDDLE@ + decimal((i + 1) as nat)
                + SLIDE_REL_CLOSE@,
        ),
        text_contains(
            content_types_text(slides.len()),
            SLIDE_OVERRIDE_OPEN@ + decimal((i + 1) as nat) + SLIDE_OVERRIDE_CLOSE@,
        ),
        pptx_parts(slides)[9 + 2 * i] == (
            "ppt/slides/slide"@ + decimal((i + 1) as nat) + ".xml"@,
            slide_text(slides[i].title@, slides[i].bullets@),
        ),
        pptx_parts(slides)[10 + 2 * i] == (
            "ppt/slides/_rels/slide"@ + decimal((i + 1) as nat) + ".xml.rels"@,
            SLIDE_RELS_XML@,
        ),
{
    let n = slides.len();
    let k = (i + 1) as nat;
    lemma_slide_id_list_entry(n, i as nat);
    lemma_contains_middle(
        PRESENTATION_HEAD@,
        slide_id_list(n),
        slide_id_entry(i as nat),
        PRESENTATION_TAIL@,
        slide_id_list(i as nat).len() as int,
    );
    assert((256 + i) as nat == 256 + (i as nat) && (i + 2) as nat == 2 + (i as nat));
    lemma_slide_relationships_entry(n, k);
    assert((k - 1) as nat == i as nat && k + 1 == (i + 2) as nat);
    lemma_contains_middle(
        PRESENTATION_RELS_HEAD@,
        slide_relationships(n),
        slide_relationship(k),
        RELATIONSHIPS_CLOSE@,
        slide_relationships((k - 1) as nat).len() as int,
    );
    lemma_slide_overrides_entry(n, k);
    lemma_contains_middle(
        CONTENT_TYPES_HEAD@,
        slide_overrides(n),
        slide_override(k),
        CONTENT_TYPES_CLOSE@,
        slide_overrides((k - 1) as nat).len() as int,
    );
    lemma_slide_parts_at(slides, i);
}

} // verus!

verus! {

// ---------------------------------------------------------------------------
// Word documents
// ---------------------------------------------------------------------------

/// A run of `text` (line feeds removed) at a size (in half-points).
pub open spec fn text_run(text: Seq<char>, size: usize) -> RunV {
    RunV { texts: seq![without_newlines(text)], size: Some(size), bold: false, italic: false }
}

pub open spec fn bold_run(text: Seq<char>, size: usize) -> RunV {
    RunV { bold: true, ..text_run(text, size) }
}

/// A paragraph of one run, without alignment.
pub open spec fn plain_paragraph(run: RunV) -> ParagraphV {
    ParagraphV { runs: seq![run], alignment: None }
}

/// The title: bold, 24 pt, centered.
pub open spec fn title_paragraph(title: Seq<char>) -> ParagraphV {
    ParagraphV { runs: seq![bold_run(title, 48)], alignment: Some("center"@) }
}

/// The subtitle: italic, 12 pt, centered.
pub open spec fn subtitle_paragraph(subtitle: Seq<char>) -> ParagraphV {
    ParagraphV {
        runs: seq![RunV { italic: true, ..text_run(subtitle, 24) }],
        alignment: Some("center"@),
    }
}

/// A section heading: bold, 16 pt.
pub open spec fn heading_paragraph(heading: Seq<char>) -> ParagraphV {
    plain_paragraph(bold_run(heading, 32))
}

/// A body paragraph: 11 pt.
pub open spec fn body_paragraph(text: Seq<char>) -> ParagraphV {
    plain_paragraph(text_run(text, 22))
}

/// An empty paragraph.
pub open spec fn blank_line() -> BlockV {
    BlockV::Paragraph(ParagraphV { runs: Seq::empty(), alignment: None })
}

pub open spec fn filled(text: Option<Seq<char>>) -> bool {
    text matches Some(t) && !crate::text::is_blank_seq(t)
}

/// Title, subtitle when given and not blank, then an empty line.
pub open spec fn doc_head(title: Seq<char>, subtitle: Option<Seq<char>>) -> Seq<BlockV> {
    seq![BlockV::Paragraph(title_paragraph(title))] + (if filled(subtitle) {
        seq![BlockV::Paragraph(subtitle_paragraph(subtitle->0))]
    } else {
        Seq::empty()
    }) + seq![blank_line()]
}

/// The length of the longest row.
pub open spec fn max_row_len(rows: Seq<Vec<String>>) -> nat
    decreases rows.len(),
{
    if rows.len() == 0 {
        0
    } else {
        let m = max_row_len(rows.drop_last());
        if rows.last()@.len() > m {
            rows.last()@.len()
        } else {
            m
        }
    }
}

/// As many columns as the longest row has cells, and at least one.
pub open spec fn column_count(rows: Seq<Vec<String>>) -> nat {
    if max_row_len(rows) == 0 {
        1
    } else {
        max_row_len(rows)
    }
}

/// Each column's share of the 9000-twip table width.
pub open spec fn column_width(rows: Seq<Vec<String>>) -> nat {
    9000nat / column_count(rows)
}

pub open spec fn cell_text(row: Seq<String>, col: int) -> Seq<char> {
    if 0 <= col < row.len() {
        row[col]@
    } else {
        Seq::empty()
    }
}

/// A cell: its text at 10 pt, bold in the header row, and its width in
/// twips (`dxa`).
pub open spec fn cell_model(text: Seq<char>, header: bool, width: usize) -> CellV {
    CellV {
        paragraphs: seq![plain_paragraph(RunV { bold: header, ..text_run(text, 20) })],
        width: Some((width, "dxa"@)),
    }
}

/// A row of `columns` cells; missing cells are empty.
pub open spec fn row_model(row: Seq<String>, header: bool, columns: nat, width: usize) -> Seq<CellV> {
    Seq::new(columns, |col: int| cell_model(cell_text(row, col), header, width))
}

/// The rows of the table, the first one the header.
pub open spec fn rows_model(rows: Seq<Vec<String>>) -> Seq<Seq<CellV>> {
    Seq::new(
        rows.len(),
        |i: int| row_model(rows[i]@, i == 0, column_count(rows), column_width(rows) as usize),
    )
}

/// A single black border of 1/2 pt on one side.
pub open spec fn border_model(side: BorderSide) -> BorderV {
    BorderV { side, style: "single"@, size: 4, color: "000000"@ }
}

/// Borders on the four sides and between all cells.
pub open spec fn default_borders_model() -> Map<BorderSide, BorderV> {
    Map::new(|side: BorderSide| true, |side: BorderSide| border_model(side))
}

/// A table: its rows, an even column grid, and the default borders.
pub open spec fn table_model(rows: Seq<Vec<String>>) -> TableV {
    TableV {
        rows: rows_model(rows),
        grid: Seq::new(column_count(rows), |i: int| column_width(rows) as usize),
        borders: default_borders_model(),
    }
}

pub open spec fn body_paragraphs(paragraphs: Seq<String>) -> Seq<BlockV> {
    paragraphs.map_values(|p: String| BlockV::Paragraph(body_paragraph(p@)))
}

pub open spec fn opt_string_view(s: Option<String>) -> Option<Seq<char>> {
    match s {
        Some(t) => Some(t@),
        None => None,
    }
}

/// A section: heading when given and not blank, the paragraphs, and the
/// table followed by an empty line when it has rows.
pub open spec fn section_model(s: WordSection) -> Seq<BlockV> {
    (if filled(opt_string_view(s.heading)) {
        seq![BlockV::Paragraph(heading_paragraph(s.heading->0@))]
    } else {
        Seq::empty()
    }) + body_paragraphs(s.paragraphs@) + (if s.table matches Some(rows) && rows@.len() > 0 {
        seq![BlockV::Table(table_model(s.table->0@)), blank_line()]
    } else {
        Seq::empty()
    })
}

pub open spec fn sections_model(sections: Seq<WordSection>) -> Seq<BlockV>
    decreases sections.len(),
{
    if sections.len() == 0 {
        Seq::empty()
    } else {
        sections_model(sections.drop_last()) + section_model(sections.last())
    }
}

/// The body of the document, block by block.
pub open spec fn docx_layout(
    title: Seq<char>,
    subtitle: Option<Seq<char>>,
    sections: Seq<WordSection>,
) -> Seq<BlockV> {
    doc_head(title, subtitle) + sections_model(sections)
}

fn text_run_of(text: &str, size: usize) -> (r: docx_rs::Run)
    ensures
        run_state(r) == text_run(text@, size),
{
    let r = run_add_text(run_new(), text);
    let r = run_size(r, size);
    assert(run_state(r).texts =~= seq![without_newlines(text@)]);
    r
}

fn paragraph_of(run: docx_rs::Run) -> (p: docx_rs::Paragraph)
    ensures
        paragraph_state(p) == plain_paragraph(run_state(run)),
{
    let p = paragraph_add_run(paragraph_new(), run);
    assert(paragraph_state(p).runs =~= seq![run_state(run)]);
    p
}

/// The position of a side in the order the borders are set.
pub open spec fn side_rank(side: BorderSide) -> int {
    match side {
        BorderSide::Top => 0,
        BorderSide::Bottom => 1,
        BorderSide::Left => 2,
        BorderSide::Right => 3,
        BorderSide::InsideH => 4,
        BorderSide::InsideV => 5,
    }
}

/// The default borders of a table.
fn default_table_borders() -> (b: docx_rs::TableBorders)
    ensures
        borders_state(b) == default_borders_model(),
{
    let positions = [
        BorderSide::Top,
        BorderSide::Bottom,
        BorderSide::Left,
        BorderSide::Right,
        BorderSide::InsideH,
        BorderSide::InsideV,
    ];
    let mut borders = borders_with_empty();
    assert(borders_state(borders) =~= Map::new(
        |s: BorderSide| side_rank(s) < 0,
        |s: BorderSide| border_model(s),
    ));
    let mut i: usize = 0;
    while i < 6
        invariant
            i <= 6,
            positions@ == seq![
                BorderSide::Top,
                BorderSide::Bottom,
                BorderSide::Left,
                BorderSide::Right,
                BorderSide::InsideH,
                BorderSide::InsideV,
            ],
            borders_state(borders) == Map::new(
                |s: BorderSide| side_rank(s) < i,
                |s: BorderSide| border_model(s),
            ),
        decreases 6 - i,
    {
        let side = positions[i];
        assert(side == positions@[i as int]);
        assert(side_rank(side) == i);
        let border = border_color(
            border_size(border_style(border_new(side), BorderStyle::Single), 4),
            "000000",
        );
        assert(border_state(border) =~= border_model(side)) by {
            reveal_strlit("single");
        }
        borders = borders_set_border(borders, border);
        assert(borders_state(borders) =~= Map::new(
            |s: BorderSide| side_rank(s) < i + 1,
            |s: BorderSide| border_model(s),
        ));
        i = i + 1;
    }
    assert(borders_state(borders) =~= default_borders_model());
    borders
}

} // verus!

verus! {

fn longest_row(rows: &Vec<Vec<String>>) -> (r: usize)
    ensures
        r == max_row_len(rows@),
{
    let mut max: usize = 0;
    let mut i: usize = 0;
    while i < rows.len()
        invariant
            i <= rows@.len(),
            max == max_row_len(rows@.take(i as int)),
        decreases rows@.len() - i,
    {
        assert(rows@.take(i + 1).drop_last() =~= rows@.take(i as int));
        if rows[i].len() > max {
            max = rows[i].len();
        }
        i = i + 1;
    }
    assert(rows@.take(rows@.len() as int) =~= rows@);
    max
}

/// One table row of `columns` cells.
fn word_table_row(row: &Vec<String>, header: bool, columns: usize, width: usize) -> (r: docx_rs::TableRow)
    ensures
        row_state(r) == row_model(row@, header, columns as nat, width),
{
    let mut cells: Vec<docx_rs::TableCell> = Vec::new();
    let mut col: usize = 0;
    while col < columns
        invariant
            col <= columns,
            cells@.len() == col,
            forall|j: int|
                0 <= j < col ==> cell_state(#[trigger] cells@[j]) == cell_model(
                    cell_text(row@, j),
                    header,
                    width,
                ),
        decreases columns - col,
    {
        proof {
            reveal_strlit("");
        }
        let text: &str = if col < row.len() {
            row[col].as_str()
        } else {
            ""
        };
        assert(text@ =~= cell_text(row@, col as int));
        let mut run = text_run_of(text, 20);
        if header {
            run = run_bold(run);
        }
        let para = paragraph_of(run);
        let cell = cell_width(
            cell_add_paragraph(cell_new(), para),
            width,
            WidthUnit::Dxa,
        );
        proof {
            reveal_strlit("dxa");
        }
        assert(cell_state(cell) =~~= cell_model(cell_text(row@, col as int), header, width));
        cells.push(cell);
        col = col + 1;
    }
    let r = row_new(cells);
    assert(row_state(r) =~= row_model(row@, header, columns as nat, width));
    r
}

/// The table of a section: rows padded to the longest, the first in bold,
/// even columns over 9000 twips, single borders.
fn word_table(rows: &Vec<Vec<String>>) -> (t: docx_rs::Table)
    requires
        rows@.len() > 0,
    ensures
        table_state(t) == table_model(rows@),
{
    let longest = longest_row(rows);
    let columns: usize = if longest == 0 {
        1
    } else {
        longest
    };
    let width: usize = 9000 / columns;
    let mut grid: Vec<usize> = Vec::new();
    let mut k: usize = 0;
    while k < columns
        invariant
            k <= columns,
            grid@.len() == k,
            forall|j: int| 0 <= j < k ==> #[trigger] grid@[j] == width,
        decreases columns - k,
    {
        grid.push(width);
        k = k + 1;
    }
    let mut table_rows: Vec<docx_rs::TableRow> = Vec::new();
    let mut idx: usize = 0;
    while idx < rows.len()
        invariant
            idx <= rows@.len(),
            columns == column_count(rows@),
            width == column_width(rows@),
            table_rows@.len() == idx,
            forall|j: int|
                0 <= j < idx ==> row_state(#[trigger] table_rows@[j]) == row_model(
                    rows@[j]@,
                    j == 0,
                    columns as nat,
                    width,
                ),
        decreases rows@.len() - idx,
    {
        let row = word_table_row(&rows[idx], idx == 0, columns, width);
        table_rows.push(row);
        idx = idx + 1;
    }
    let table = table_new(table_rows);
    assert(table_state(table).rows == rows_model(rows@)) by {
        let built = table_rows@.map_values(|r: docx_rs::TableRow| row_state(r));
        assert(built =~= rows_model(rows@));
    }
    let table = table_set_grid(table, grid);
    let table = table_set_borders(table, default_table_borders());
    assert(grid@ =~= Seq::new(column_count(rows@), |i: int| column_width(rows@) as usize));
    assert(table_state(table) =~~= table_model(rows@));
    table
}

} // verus!

verus! {

/// Adds one section to the document.
fn add_section(doc: docx_rs::Docx, section: &WordSection) -> (out: docx_rs::Docx)
    ensures
        docx_blocks(out) == docx_blocks(doc) + section_model(*section),
{
    let ghost start = docx_blocks(doc);
    let mut doc = doc;
    let ghost heading_part = if filled(opt_string_view(section.heading)) {
        seq![BlockV::Paragraph(heading_paragraph(section.heading->0@))]
    } else {
        Seq::<BlockV>::empty()
    };
    if let Some(heading) = &section.heading {
        if !crate::text::is_blank(heading.as_str()) {
            let run = run_bold(text_run_of(heading.as_str(), 32));
            let p = paragraph_of(run);
            assert(paragraph_state(p) =~~= heading_paragraph(heading@));
            doc = docx_add_paragraph(doc, p);
        }
    }
    assert(docx_blocks(doc) =~= start + heading_part);
    let mut i: usize = 0;
    while i < section.paragraphs.len()
        invariant
            i <= section.paragraphs@.len(),
            docx_blocks(doc) == start + heading_part + body_paragraphs(section.paragraphs@.take(i as int)),
        decreases section.paragraphs@.len() - i,
    {
        let p = paragraph_of(text_run_of(section.paragraphs[i].as_str(), 22));
        assert(paragraph_state(p) =~~= body_paragraph(section.paragraphs@[i as int]@));
        doc = docx_add_paragraph(doc, p);
        assert(body_paragraphs(section.paragraphs@.take(i + 1)) =~= body_paragraphs(
            section.paragraphs@.take(i as int),
        ).push(BlockV::Paragraph(body_paragraph(section.paragraphs@[i as int]@))));
        i = i + 1;
    }
    assert(section.paragraphs@.take(section.paragraphs@.len() as int) =~= section.paragraphs@);
    let ghost middle = docx_blocks(doc);
    if let Some(rows) = &section.table {
        if rows.len() > 0 {
            let table = word_table(rows);
            doc = docx_add_table(doc, table);
            doc = docx_add_paragraph(doc, paragraph_new());
            assert(docx_blocks(doc) =~= middle + seq![BlockV::Table(table_model(rows@)), blank_line()]);
        }
    }
    assert(docx_blocks(doc) =~= start + section_model(*section));
    doc
}

/// The Word document as built: every block of `docx_layout`, in order.
pub fn compose_docx(title: &str, subtitle: Option<&str>, sections: &[WordSection]) -> (d: docx_rs::Docx)
    ensures
        docx_blocks(d) == docx_layout(title@, crate::api::opt_str_view(subtitle), sections@),
{
    let mut doc = docx_new();
    let title_run = run_bold(text_run_of(title, 48));
    let title_para = paragraph_align(paragraph_of(title_run), Alignment::Center);
    proof {
        reveal_strlit("center");
    }
    assert(paragraph_state(title_para) =~~= title_paragraph(title@));
    doc = docx_add_paragraph(doc, title_para);
    if let Some(sub) = subtitle {
        if !crate::text::is_blank(sub) {
            let sub_run = run_italic(text_run_of(sub, 24));
            let p = paragraph_align(paragraph_of(sub_run), Alignment::Center);
            assert(paragraph_state(p) =~~= subtitle_paragraph(sub@));
            doc = docx_add_paragraph(doc, p);
        }
    }
    doc = docx_add_paragraph(doc, paragraph_new());
    assert(docx_blocks(doc) =~~= doc_head(title@, crate::api::opt_str_view(subtitle)));
    let ghost head = docx_blocks(doc);
    let mut i: usize = 0;
    while i < sections.len()
        invariant
            i <= sections@.len(),
            docx_blocks(doc) == head + sections_model(sections@.take(i as int)),
        decreases sections@.len() - i,
    {
        doc = add_section(doc, &sections[i]);
        assert(sections@.take(i + 1).drop_last() =~= sections@.take(i as int));
        i = i + 1;
    }
    assert(sections@.take(sections@.len() as int) =~= sections@);
    doc
}

/// Renders the document and packs it as a `.docx` archive: a package of
/// the body `docx_layout`.
pub fn build_docx(title: &str, subtitle: Option<&str>, sections: &[WordSection]) -> (r: Result<
    Vec<u8>,
    String,
>)
    ensures
        r matches Ok(bytes) ==> crate::docx_render::begins_zip_archive(bytes@) && docx_packs(
            bytes@,
            docx_layout(title@, crate::api::opt_str_view(subtitle), sections@),
        ),
        r matches Err(e) ==> starts_with(e@, "docx pack failed: "@),
{
    let doc = compose_docx(title, subtitle, sections);
    let rendered = docx_build(doc);
    match xml_docx_pack(rendered) {
        Ok(bytes) => Ok(bytes),
        Err(e) => Err(prefixed("docx pack failed: ", e.as_str())),
    }
}

pub const WORD_NEEDS_TITLE: &'static str = "create_word_document requires a title";

/// Builds the Word document and uploads it as `name` with a `.docx`
/// extension; the title must not be blank.
pub fn create_word_document(
    token_configured: bool,
    parent_folder_id: Option<&str>,
    name: &str,
    title: &str,
    subtitle: Option<&str>,
    sections: &[WordSection],
) -> (r: Result<crate::graph::HttpRequest, String>)
    ensures
        crate::text::is_blank_seq(title@) ==> crate::api::fails_with(r, WORD_NEEDS_TITLE@),
        !crate::text::is_blank_seq(title@) ==> (r matches Err(e) && starts_with(
            e@,
            "docx pack failed: "@,
        )) || exists|bytes: Seq<u8>|
            crate::docx_render::begins_zip_archive(bytes) && docx_packs(
                bytes,
                docx_layout(title@, crate::api::opt_str_view(subtitle), sections@),
            ) && crate::api::upload_outcome(
                r,
                token_configured,
                crate::api::opt_str_view(parent_folder_id),
                with_extension(name@, ".docx"@),
                bytes,
                crate::graph::DOCX_MIME@,
            ),
{
    if crate::text::is_blank(title) {
        return Err(WORD_NEEDS_TITLE.to_string());
    }
    let file_name = ensure_extension(name, ".docx");
    let bytes = build_docx(title, subtitle, sections)?;
    let ghost packed = bytes@;
    let r = crate::api::upload_to_drive(
        token_configured,
        parent_folder_id,
        file_name.as_str(),
        bytes,
        crate::graph::DOCX_MIME,
    );
    assert(crate::api::upload_outcome(
        r,
        token_configured,
        crate::api::opt_str_view(parent_folder_id),
        with_extension(name@, ".docx"@),
        packed,
        crate::graph::DOCX_MIME@,
    ));
    r
}

} // verus!
