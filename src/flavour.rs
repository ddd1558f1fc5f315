use mime::Mime;
use vstd::prelude::*;

verus! {

#[verifier::external_type_specification]
#[verifier::external_body]
pub struct ExMime(mime::Mime);

#[verifier::external_type_specification]
#[verifier::external_body]
pub struct ExFromStrError(mime::FromStrError);

/// The text of the media type that `mime` parses from `s`, or `None` where
/// `mime` rejects `s`.
pub uninterp spec fn mime_parse(s: Seq<char>) -> Option<Seq<char>>;

/// Whether `mime` holds the media types parsed into the texts `a` and `b`
/// to be equal.
pub uninterp spec fn mime_equal(a: Seq<char>, b: Seq<char>) -> bool;

/// Whether every character of `s` is ASCII.
pub open spec fn all_ascii(s: Seq<char>) -> bool {
    forall|i: int| 0 <= i < s.len() ==> (#[trigger] s[i] as u32) < 128
}

/// A data format: a parsed MIME media type, written in ASCII.
#[derive(Debug)]
pub struct Flavour {
    mime: Mime,
    text: String,
}

/// The input is not a media type.
#[derive(Debug, PartialEq, Eq, Structural)]
pub struct FlavourError {}

impl Flavour {
    #[verifier::type_invariant]
    spec fn inv(&self) -> bool {
        all_ascii(self.text@)
    }
}

impl View for Flavour {
    type V = Seq<char>;

    closed spec fn view(&self) -> Seq<char> {
        self.text@
    }
}

/// Relies on `<mime::Mime as FromStr>::from_str` to parse `s`, and on
/// `<mime::Mime as AsRef<str>>::as_ref` for the text of the parsed type.
#[verifier::external_body]
fn parse_mime(s: &str) -> (r: Result<(Mime, String), mime::FromStrError>)
    ensures
        r is Ok <==> mime_parse(s@) is Some,
        r is Ok ==> r->Ok_0.1@ == mime_parse(s@)->Some_0,
{
    match s.parse::<Mime>() {
        Ok(m) => {
            let t = m.as_ref().to_string();
            Ok((m, t))
        },
        Err(e) => Err(e),
    }
}

/// Relies on `<mime::Mime as PartialEq>::eq`, whose outcome is decided by
/// the texts of the two parsed types. A flavour's text is the text of its
/// parsed type: `Flavour::parse` sets both together and nothing changes them.
/// The comparison cuts one text at a byte offset taken from the other, which
/// is a character boundary only where the texts are ASCII.
#[verifier::external_body]
fn same_mime(a: &Flavour, b: &Flavour) -> (r: bool)
    requires
        all_ascii(a@),
        all_ascii(b@),
    ensures
        r == mime_equal(a@, b@),
{
    a.mime == b.mime
}

/// Whether every character of `s` is ASCII.
fn is_ascii(s: &str) -> (r: bool)
    ensures
        r == all_ascii(s@),
{
    let n = s.unicode_len();
    let mut i: usize = 0;
    while i < n
        invariant
            n == s@.len(),
            i <= n,
            forall|j: int| 0 <= j < i ==> (#[trigger] s@[j] as u32) < 128,
        decreases n - i,
    {
        let c = s.get_char(i);
        if (c as u32) >= 128 {
            return false;
        }
        i = i + 1;
    }
    true
}

impl Flavour {
    /// Parses a media type such as `text/plain`. A type whose text is not
    /// all ASCII is refused.
    pub fn parse(s: &str) -> (r: Result<Flavour, FlavourError>)
        ensures
            r is Ok <==> (mime_parse(s@) is Some && all_ascii(mime_parse(s@)->Some_0)),
            r is Ok ==> r->Ok_0@ == mime_parse(s@)->Some_0,
    {
        match parse_mime(s) {
            Ok((mime, text)) => {
                if is_ascii(text.as_str()) {
                    Ok(Flavour { mime, text })
                } else {
                    Err(FlavourError {})
                }
            },
            Err(_) => Err(FlavourError {}),
        }
    }

    /// The text of the media type.
    pub fn as_str(&self) -> (r: &str)
        ensures
            r@ == self@,
    {
        self.text.as_str()
    }

    /// Whether the two flavours denote the same media type.
    pub fn matches(&self, other: &Flavour) -> (r: bool)
        ensures
            r == mime_equal(self@, other@),
    {
        proof {
            use_type_invariant(self);
            use_type_invariant(other);
        }
        same_mime(self, other)
    }
}

} // verus!
