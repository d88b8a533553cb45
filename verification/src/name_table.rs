use vstd::prelude::*;

verus! {

// ---------------------------------------------------------------------------
// Name identifiers of the OpenType naming table
// ---------------------------------------------------------------------------

/// Name ID of a legacy family name record.
pub const NAME_ID_FAMILY: u16 = 1;

/// Name ID of a subfamily (style) record.
pub const NAME_ID_SUBFAMILY: u16 = 2;

/// Name ID of a typographic family name record.
pub const NAME_ID_TYPOGRAPHIC_FAMILY: u16 = 16;

/// Name ID of a full (display) name record.
pub const NAME_ID_FULL_NAME: u16 = 4;

/// Name ID of a PostScript name record.
pub const NAME_ID_POST_SCRIPT: u16 = 6;

// ---------------------------------------------------------------------------
// Raw name records, as read out of a font's naming table
// ---------------------------------------------------------------------------

/// One record of a font's naming table, reduced to plain values: its
/// semantic role, whether its payload uses a Unicode-compatible encoding,
/// its primary language, and its decoded text (absent when the payload
/// cannot be decoded).
pub struct RawName {
    pub name_id: u16,
    pub unicode: bool,
    pub language: String,
    pub text: Option<String>,
}

/// The mathematical shape of a `RawName`.
pub ghost struct RawNameView {
    pub name_id: u16,
    pub unicode: bool,
    pub language: Seq<char>,
    pub text: Option<Seq<char>>,
}

impl View for RawName {
    type V = RawNameView;

    open spec fn view(&self) -> RawNameView {
        RawNameView {
            name_id: self.name_id,
            unicode: self.unicode,
            language: self.language@,
            text: view_opt(self.text),
        }
    }
}

/// The view of an optional string.
pub open spec fn view_opt(o: Option<String>) -> Option<Seq<char>> {
    match o {
        Some(s) => Some(s@),
        None => None,
    }
}

/// The views of a sequence of raw records.
pub open spec fn name_views(s: Seq<RawName>) -> Seq<RawNameView> {
    s.map_values(|n: RawName| n@)
}

/// What a successful low-level parse of one face yields: its naming-table
/// records in table order, and its weight-class number.
pub struct RawFace {
    pub names: Vec<RawName>,
    pub weight: u16,
}

// ---------------------------------------------------------------------------
// Trusted boundary: ttf-parser
// ---------------------------------------------------------------------------

/// Whether `ttf_parser::Face::parse` accepts `data` as a font container
/// with a face at `index`.
pub uninterp spec fn face_accepts(data: Seq<u8>, index: u32) -> bool;

/// The naming-table records that `ttf_parser` reads from the face, in
/// table order, each reduced to a `RawNameView`.
pub uninterp spec fn face_name_records(data: Seq<u8>, index: u32) -> Seq<RawNameView>;

/// The weight-class number that `ttf_parser` reads from the face.
pub uninterp spec fn face_weight_value(data: Seq<u8>, index: u32) -> u16;

/// Relies on `ttf_parser::Face::parse`, which returns `Err` on anything
/// that is not a well-formed font container or when `index` is out of
/// range, and on the accessors `Face::names` (each record's `name_id`,
/// `is_unicode`, `language().primary_language()` and `to_string`) and
/// `Face::weight().to_number()`; all of them compute from `data` and
/// `index` alone.
#[verifier::external_body]
fn parse_face_raw(data: &Vec<u8>, index: u32) -> (r: Option<RawFace>)
    ensures
        r is Some <==> face_accepts(data@, index),
        r matches Some(f) ==> name_views(f.names@) == face_name_records(data@, index),
        r matches Some(f) ==> f.weight == face_weight_value(data@, index),
{
    let face = match ttf_parser::Face::parse(data, index) {
        Ok(f) => f,
        Err(_) => return None,
    };
    let names: Vec<RawName> = face
        .names()
        .into_iter()
        .map(|n| RawName {
            name_id: n.name_id,
            unicode: n.is_unicode(),
            language: n.language().primary_language().to_string(),
            text: n.to_string(),
        })
        .collect();
    Some(RawFace { names, weight: face.weight().to_number() })
}

// ---------------------------------------------------------------------------
// The record walk: bucketing family names by language, last record wins
// ---------------------------------------------------------------------------

/// A record that contributes a family name for language `lang`: it must be
/// Unicode-encoded, play a family-name role, and carry that language.
pub open spec fn is_family_record(n: RawNameView, lang: Seq<char>) -> bool {
    &&& n.unicode
    &&& (n.name_id == NAME_ID_TYPOGRAPHIC_FAMILY || n.name_id == NAME_ID_FAMILY)
    &&& n.language == lang
}

/// A Unicode-encoded record with the given name ID.
pub open spec fn is_text_record(n: RawNameView, id: u16) -> bool {
    n.unicode && n.name_id == id
}

/// The text of the last family-name record for `lang`, or `None` when no
/// record matches. A matching record whose text failed to decode yields
/// `None` as well: the later record still wins.
pub open spec fn last_family_text(names: Seq<RawNameView>, lang: Seq<char>) -> Option<Seq<char>>
    decreases names.len(),
{
    if names.len() == 0 {
        None
    } else if is_family_record(names.last(), lang) {
        names.last().text
    } else {
        last_family_text(names.drop_last(), lang)
    }
}

/// The text of the last Unicode-encoded record with name ID `id`, or
/// `None` when no record matches. As with the family walk, a matching
/// record whose text failed to decode yields `None`: the later record
/// still wins.
pub open spec fn last_unicode_text(names: Seq<RawNameView>, id: u16) -> Option<Seq<char>>
    decreases names.len(),
{
    if names.len() == 0 {
        None
    } else if is_text_record(names.last(), id) {
        names.last().text
    } else {
        last_unicode_text(names.drop_last(), id)
    }
}

/// The full name surfaced for a face: the text of the last Unicode
/// full-name record, falling back to the last Unicode legacy family
/// record, and to the empty string when neither yields a text.
pub open spec fn full_name_of(names: Seq<RawNameView>) -> Seq<char> {
    match last_unicode_text(names, NAME_ID_FULL_NAME) {
        Some(t) => t,
        None => match last_unicode_text(names, NAME_ID_FAMILY) {
            Some(t) => t,
            None => Seq::empty(),
        },
    }
}

/// The PostScript name surfaced for a face: the text of the last Unicode
/// PostScript-name record, if any.
pub open spec fn post_script_of(names: Seq<RawNameView>) -> Option<Seq<char>> {
    last_unicode_text(names, NAME_ID_POST_SCRIPT)
}

proof fn lemma_last_family_push(s: Seq<RawNameView>, n: RawNameView, lang: Seq<char>)
    ensures
        last_family_text(s.push(n), lang) == if is_family_record(n, lang) {
            n.text
        } else {
            last_family_text(s, lang)
        },
{
    assert(s.push(n).last() == n);
    assert(s.push(n).drop_last() =~= s);
}

proof fn lemma_last_text_push(s: Seq<RawNameView>, n: RawNameView, id: u16)
    ensures
        last_unicode_text(s.push(n), id) == if is_text_record(n, id) {
            n.text
        } else {
            last_unicode_text(s, id)
        },
{
    assert(s.push(n).last() == n);
    assert(s.push(n).drop_last() =~= s);
}

/// Whether two strings hold the same characters.
pub(crate) fn str_eq(a: &str, b: &str) -> (r: bool)
    ensures
        r == (a@ == b@),
{
    let n = a.unicode_len();
    let m = b.unicode_len();
    if n != m {
        return false;
    }
    let mut i: usize = 0;
    while i < n
        invariant
            i <= n,
            n == a@.len(),
            n == b@.len(),
            forall|j: int| 0 <= j < i ==> a@[j] == b@[j],
        decreases n - i,
    {
        if a.get_char(i) != b.get_char(i) {
            return false;
        }
        i = i + 1;
    }
    proof {
        assert(a@ =~= b@);
    }
    true
}

/// A fresh copy of an optional string.
pub(crate) fn clone_opt(o: &Option<String>) -> (r: Option<String>)
    ensures
        view_opt(r) == view_opt(*o),
{
    match o {
        Some(s) => Some(s.clone()),
        None => None,
    }
}

/// Walks the naming-table records in order and returns the English family
/// name, the Chinese family name, and the style, each the text of the last
/// matching Unicode record.
pub fn collect_names(names: &Vec<RawName>) -> (r: (Option<String>, Option<String>, Option<String>))
    ensures
        view_opt(r.0) == last_family_text(name_views(names@), "English"@),
        view_opt(r.1) == last_family_text(name_views(names@), "Chinese"@),
        view_opt(r.2) == last_unicode_text(name_views(names@), NAME_ID_SUBFAMILY),
{
    let mut english: Option<String> = None;
    let mut chinese: Option<String> = None;
    let mut style: Option<String> = None;
    let mut i: usize = 0;
    while i < names.len()
        invariant
            i <= names@.len(),
            view_opt(english) == last_family_text(name_views(names@).take(i as int), "English"@),
            view_opt(chinese) == last_family_text(name_views(names@).take(i as int), "Chinese"@),
            view_opt(style) == last_unicode_text(
                name_views(names@).take(i as int),
                NAME_ID_SUBFAMILY,
            ),
        decreases names@.len() - i,
    {
        let rec = &names[i];
        proof {
            reveal_strlit("English");
            reveal_strlit("Chinese");
            assert("English"@[0] == 'E' && "Chinese"@[0] == 'C');
            assert("English"@ != "Chinese"@);
            assert(name_views(names@).take(i + 1) =~= name_views(names@).take(i as int).push(
                names@[i as int]@,
            ));
            lemma_last_family_push(name_views(names@).take(i as int), names@[i as int]@, "English"@);
            lemma_last_family_push(name_views(names@).take(i as int), names@[i as int]@, "Chinese"@);
            lemma_last_text_push(
                name_views(names@).take(i as int),
                names@[i as int]@,
                NAME_ID_SUBFAMILY,
            );
        }
        if rec.unicode {
            if rec.name_id == NAME_ID_TYPOGRAPHIC_FAMILY || rec.name_id == NAME_ID_FAMILY {
                if str_eq(rec.language.as_str(), "English") {
                    english = clone_opt(&rec.text);
                } else if str_eq(rec.language.as_str(), "Chinese") {
                    chinese = clone_opt(&rec.text);
                }
            } else if rec.name_id == NAME_ID_SUBFAMILY {
                style = clone_opt(&rec.text);
            }
        }
        i = i + 1;
    }
    proof {
        assert(name_views(names@).take(names@.len() as int) =~= name_views(names@));
    }
    (english, chinese, style)
}

/// The text of the last Unicode-encoded record with name ID `id`.
fn last_text_with_id(names: &Vec<RawName>, id: u16) -> (r: Option<String>)
    ensures
        view_opt(r) == last_unicode_text(name_views(names@), id),
{
    let mut found: Option<String> = None;
    let mut i: usize = 0;
    while i < names.len()
        invariant
            i <= names@.len(),
            view_opt(found) == last_unicode_text(name_views(names@).take(i as int), id),
        decreases names@.len() - i,
    {
        let rec = &names[i];
        proof {
            assert(name_views(names@).take(i + 1) =~= name_views(names@).take(i as int).push(
                names@[i as int]@,
            ));
            lemma_last_text_push(name_views(names@).take(i as int), names@[i as int]@, id);
        }
        if rec.unicode && rec.name_id == id {
            found = clone_opt(&rec.text);
        }
        i = i + 1;
    }
    proof {
        assert(name_views(names@).take(names@.len() as int) =~= name_views(names@));
    }
    found
}

// ---------------------------------------------------------------------------
// The parsed result of one font
// ---------------------------------------------------------------------------

/// Everything the metadata pipeline learns about one face: the two
/// localized family names, the style, the PostScript name, the full name,
/// and the weight-class number.
pub struct ParsedNames {
    pub english_family: Option<String>,
    pub chinese_family: Option<String>,
    pub style: Option<String>,
    pub post_script: Option<String>,
    pub full_name: String,
    pub weight: u16,
}

/// The mathematical shape of `ParsedNames`.
pub ghost struct ParsedNamesView {
    pub english_family: Option<Seq<char>>,
    pub chinese_family: Option<Seq<char>>,
    pub style: Option<Seq<char>>,
    pub post_script: Option<Seq<char>>,
    pub full_name: Seq<char>,
    pub weight: u16,
}

impl View for ParsedNames {
    type V = ParsedNamesView;

    open spec fn view(&self) -> ParsedNamesView {
        ParsedNamesView {
            english_family: view_opt(self.english_family),
            chinese_family: view_opt(self.chinese_family),
            style: view_opt(self.style),
            post_script: view_opt(self.post_script),
            full_name: self.full_name@,
            weight: self.weight,
        }
    }
}

/// Why a font's bytes yielded no metadata.
#[derive(Clone, Copy, PartialEq, Eq, Structural, Debug)]
pub enum ParseError {
    /// The bytes are not a well-formed font container, or the face index
    /// is out of range.
    NotAFont,
}

/// The container parser accepts the face.
pub open spec fn parse_ok(data: Seq<u8>, index: u32) -> bool {
    face_accepts(data, index)
}

/// What parsing the face at `index` out of `data` yields on success.
pub open spec fn parsed_names_of(data: Seq<u8>, index: u32) -> ParsedNamesView {
    let recs = face_name_records(data, index);
    ParsedNamesView {
        english_family: last_family_text(recs, "English"@),
        chinese_family: last_family_text(recs, "Chinese"@),
        style: last_unicode_text(recs, NAME_ID_SUBFAMILY),
        post_script: post_script_of(recs),
        full_name: full_name_of(recs),
        weight: face_weight_value(data, index),
    }
}

/// Parses the name table of the face at `face_index` in `data`: walks every
/// Unicode-encoded record to bucket family names by language (English and
/// Chinese, last record per language winning) and to pick up the style,
/// takes the full name from the full-name records (falling back to the
/// legacy family records) and the PostScript name from the
/// PostScript-name records, and reads the weight class.
pub fn parse_name_table(data: &Vec<u8>, face_index: u32) -> (r: Result<ParsedNames, ParseError>)
    ensures
        r is Ok <==> parse_ok(data@, face_index),
        r matches Ok(p) ==> p@ == parsed_names_of(data@, face_index),
        r is Err ==> r == Result::<ParsedNames, ParseError>::Err(ParseError::NotAFont),
{
    let raw = match parse_face_raw(data, face_index) {
        Some(f) => f,
        None => return Err(ParseError::NotAFont),
    };
    let (english, chinese, style) = collect_names(&raw.names);
    let post_script = last_text_with_id(&raw.names, NAME_ID_POST_SCRIPT);
    let full_name = match last_text_with_id(&raw.names, NAME_ID_FULL_NAME) {
        Some(name) => name,
        None => match last_text_with_id(&raw.names, NAME_ID_FAMILY) {
            Some(name) => name,
            None => String::new(),
        },
    };
    Ok(
        ParsedNames {
            english_family: english,
            chinese_family: chinese,
            style,
            post_script,
            full_name,
            weight: raw.weight,
        },
    )
}

} // verus!
