use vstd::prelude::*;

use crate::name_table::{view_opt, ParsedNames, ParsedNamesView};
use crate::path_guard::file_name_of;

verus! {

// ---------------------------------------------------------------------------
// The public record shape
// ---------------------------------------------------------------------------

/// One localized family name of a font: the name itself, the language tag
/// it was found under, and the font's style (shared by every entry).
pub struct FamilyName {
    pub font_family: Option<String>,
    pub language: String,
    pub style: Option<String>,
}

/// The mathematical shape of a `FamilyName`.
pub ghost struct FamilyNameView {
    pub font_family: Option<Seq<char>>,
    pub language: Seq<char>,
    pub style: Option<Seq<char>>,
}

impl View for FamilyName {
    type V = FamilyNameView;

    open spec fn view(&self) -> FamilyNameView {
        FamilyNameView {
            font_family: view_opt(self.font_family),
            language: self.language@,
            style: view_opt(self.style),
        }
    }
}

/// The public metadata record of one listed font.
pub struct FontData {
    pub post_script: Option<String>,
    pub file_name: String,
    pub font_name: String,
    pub family_name: Vec<FamilyName>,
    pub weight: u16,
    pub path: String,
}

/// The mathematical shape of a `FontData`.
pub ghost struct FontDataView {
    pub post_script: Option<Seq<char>>,
    pub file_name: Seq<char>,
    pub font_name: Seq<char>,
    pub family_name: Seq<FamilyNameView>,
    pub weight: u16,
    pub path: Seq<char>,
}

impl View for FontData {
    type V = FontDataView;

    open spec fn view(&self) -> FontDataView {
        FontDataView {
            post_script: view_opt(self.post_script),
            file_name: self.file_name@,
            font_name: self.font_name@,
            family_name: self.family_name@.map_values(|f: FamilyName| f@),
            weight: self.weight,
            path: self.path@,
        }
    }
}

// ---------------------------------------------------------------------------
// Handles: what identifies one font of the listing
// ---------------------------------------------------------------------------

/// The display path recorded for fonts that were handed over as bytes in
/// memory rather than as a file.
pub open spec fn memory_sentinel() -> Seq<char> {
    "Memory-Loaded Font"@
}

/// One font to be listed: its display path (`None` for an in-memory font),
/// the index of the face inside the container, and the container's bytes.
pub struct FontInput {
    pub path: Option<String>,
    pub face_index: u32,
    pub data: Vec<u8>,
}

/// The mathematical shape of a `FontInput`.
pub ghost struct FontInputView {
    pub path: Option<Seq<char>>,
    pub face_index: u32,
    pub data: Seq<u8>,
}

impl View for FontInput {
    type V = FontInputView;

    open spec fn view(&self) -> FontInputView {
        FontInputView {
            path: view_opt(self.path),
            face_index: self.face_index,
            data: self.data@,
        }
    }
}

/// The identity key of a handle: its display path, or the fixed sentinel
/// for in-memory fonts; the listing keeps one record per key.
pub open spec fn key_of(h: FontInputView) -> Seq<char> {
    match h.path {
        Some(p) => p,
        None => memory_sentinel(),
    }
}

/// The display key of a handle, as a fresh string.
pub fn display_key(input: &FontInput) -> (r: String)
    ensures
        r@ == key_of(input@),
{
    match &input.path {
        Some(p) => p.clone(),
        None => "Memory-Loaded Font".to_owned(),
    }
}

// ---------------------------------------------------------------------------
// The normalizer: from parse results to the public record
// ---------------------------------------------------------------------------

/// The family-name entries surfaced for a parse result: an English entry
/// first when an English name was found, then a Chinese entry when a
/// Chinese name was found, each carrying the shared style.
pub open spec fn family_entries(p: ParsedNamesView) -> Seq<FamilyNameView> {
    let english = match p.english_family {
        Some(n) => seq![
            FamilyNameView { font_family: Some(n), language: "English"@, style: p.style },
        ],
        None => Seq::empty(),
    };
    let chinese = match p.chinese_family {
        Some(n) => seq![
            FamilyNameView { font_family: Some(n), language: "Chinese"@, style: p.style },
        ],
        None => Seq::empty(),
    };
    english + chinese
}

/// The record built for handle `h` from parse result `p`.
pub open spec fn record_from(h: FontInputView, p: ParsedNamesView) -> FontDataView {
    FontDataView {
        post_script: p.post_script,
        file_name: match h.path {
            Some(q) => file_name_of(q),
            None => memory_sentinel(),
        },
        font_name: p.full_name,
        family_name: family_entries(p),
        weight: p.weight,
        path: key_of(h),
    }
}

/// Assembles the public record for one font: pure, with no failure mode.
/// The family names appear English first, Chinese second, each present
/// exactly when the parse discovered a name for that language; the file
/// name is the last segment of the display path, or the sentinel for an
/// in-memory font.
pub fn build_record(input: &FontInput, parsed: ParsedNames) -> (r: FontData)
    ensures
        r@ == record_from(input@, parsed@),
{
    let ParsedNames { english_family, chinese_family, style, post_script, full_name, weight } =
        parsed;
    let mut family: Vec<FamilyName> = Vec::new();
    let style_copy = crate::name_table::clone_opt(&style);
    if let Some(n) = english_family {
        family.push(FamilyName { font_family: Some(n), language: "English".to_owned(), style:
            style_copy });
        if let Some(n2) = chinese_family {
            family.push(FamilyName { font_family: Some(n2), language: "Chinese".to_owned(), style });
        }
    } else {
        if let Some(n2) = chinese_family {
            family.push(FamilyName { font_family: Some(n2), language: "Chinese".to_owned(), style });
        }
    }
    let file_name = match &input.path {
        Some(p) => crate::path_guard::file_name_string(p.as_str()),
        None => "Memory-Loaded Font".to_owned(),
    };
    let path = display_key(input);
    let r = FontData { post_script, file_name, font_name: full_name, family_name: family, weight, path };
    proof {
        assert(r.family_name@.map_values(|f: FamilyName| f@) =~= family_entries(parsed@));
    }
    r
}

// ---------------------------------------------------------------------------
// Laws of the family-name sequence
// ---------------------------------------------------------------------------

/// Law: when both an English and a Chinese family name were discovered,
/// the record carries exactly two entries, English first, Chinese second,
/// both sharing the style.
pub proof fn lemma_family_names_both(p: ParsedNamesView)
    requires
        p.english_family is Some,
        p.chinese_family is Some,
    ensures
        family_entries(p).len() == 2,
        family_entries(p)[0].language == "English"@,
        family_entries(p)[0].font_family == p.english_family,
        family_entries(p)[1].language == "Chinese"@,
        family_entries(p)[1].font_family == p.chinese_family,
        family_entries(p)[0].style == p.style,
        family_entries(p)[1].style == p.style,
{
}

/// Law: when only an English family name was discovered, the record
/// carries exactly one entry, tagged English.
pub proof fn lemma_family_names_english_only(p: ParsedNamesView)
    requires
        p.english_family is Some,
        p.chinese_family is None,
    ensures
        family_entries(p).len() == 1,
        family_entries(p)[0].language == "English"@,
        family_entries(p)[0].font_family == p.english_family,
        family_entries(p)[0].style == p.style,
{
}

/// Law: the family-name sequence never holds more than one entry per
/// language, never a language without a discovered name, and at most two
/// entries in all.
pub proof fn lemma_family_entries_shape(p: ParsedNamesView)
    ensures
        family_entries(p).len() <= 2,
        forall|i: int, j: int|
            0 <= i < j < family_entries(p).len() ==> family_entries(p)[i].language
                != family_entries(p)[j].language,
        forall|i: int|
            0 <= i < family_entries(p).len() ==> (family_entries(p)[i].language == "English"@ ==>
            p.english_family is Some) && (family_entries(p)[i].language == "Chinese"@ ==>
            p.chinese_family is Some),
{
    reveal_strlit("English");
    reveal_strlit("Chinese");
    assert("English"@[0] == 'E' && "Chinese"@[0] == 'C');
    assert("English"@ != "Chinese"@);
}

} // verus!
