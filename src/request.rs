//! Turning the raw command-line fields into a validated send request.
use vstd::prelude::*;

verus! {

/// Why a request could not be built.
#[derive(Debug, Clone, Copy, PartialEq, Eq, Structural)]
pub enum ValidationError {
    /// The recipient field was empty.
    MissingRecipient,
}

/// One message to send or to save as a draft.
#[derive(Debug)]
pub struct SendRequest {
    pub to: String,
    pub subject: String,
    pub body: String,
    pub cc: Option<Vec<String>>,
    pub bcc: Option<Vec<String>>,
    pub html_body: Option<String>,
    pub is_draft: bool,
}

/// The characters of each string in a sequence.
pub open spec fn texts(v: Seq<String>) -> Seq<Seq<char>> {
    v.map_values(|p: String| p@)
}

/// The pieces written one after another with `sep` between each two.
pub open spec fn joined(parts: Seq<Seq<char>>, sep: char) -> Seq<char>
    decreases parts.len(),
{
    if parts.len() == 0 {
        Seq::empty()
    } else if parts.len() == 1 {
        parts[0]
    } else {
        joined(parts.drop_last(), sep) + seq![sep] + parts.last()
    }
}

/// `parts` is `s` cut at every occurrence of `sep`, in order: joining the
/// parts back with `sep` gives `s`, and no part holds `sep`.
pub open spec fn is_split_of(parts: Seq<Seq<char>>, s: Seq<char>, sep: char) -> bool {
    &&& parts.len() >= 1
    &&& joined(parts, sep) == s
    &&& forall|j: int| 0 <= j < parts.len() ==> !(#[trigger] parts[j]).contains(sep)
}

/// What a comma-separated list field yields: no list when it is absent or
/// empty, else its pieces between commas, kept as written.
pub open spec fn list_field(s: Option<&str>, r: Option<Vec<String>>) -> bool {
    match s {
        None => r is None,
        Some(t) => if t@.len() == 0 {
            r is None
        } else {
            r is Some && is_split_of(texts(r->0@), t@, ',')
        },
    }
}

/// An optional text field, with the empty string in place of an absent one.
pub open spec fn text_or_empty(s: Option<&str>) -> Seq<char> {
    match s {
        Some(t) => t@,
        None => Seq::empty(),
    }
}

/// An optional text field passed through as it is.
pub open spec fn same_text(s: Option<&str>, r: Option<String>) -> bool {
    match s {
        Some(t) => r is Some && r->0@ == t@,
        None => r is None,
    }
}

proof fn lemma_texts_push(v: Seq<String>, x: String)
    ensures
        texts(v.push(x)) == texts(v).push(x@),
{
    assert(texts(v.push(x)) =~= texts(v).push(x@));
}

proof fn lemma_joined_push(parts: Seq<Seq<char>>, p: Seq<char>, sep: char)
    ensures
        joined(parts.push(p), sep) == if parts.len() == 0 {
            p
        } else {
            joined(parts, sep) + seq![sep] + p
        },
{
    assert(parts.push(p).drop_last() =~= parts);
}

/// Cuts `s` at every comma, keeping the pieces in order and as written.
pub fn split_commas(s: &str) -> (r: Vec<String>)
    ensures
        is_split_of(texts(r@), s@, ','),
{
    let n = s.unicode_len();
    let mut parts: Vec<String> = Vec::new();
    let mut start: usize = 0;
    let mut i: usize = 0;
    while i < n
        invariant
            n == s@.len(),
            start <= i <= n,
            parts.len() == 0 ==> start == 0,
            parts.len() > 0 ==> s@.subrange(0, start as int) == joined(texts(parts@), ',') + seq![','],
            forall|k: int| start <= k < i ==> s@[k] != ',',
            forall|j: int| 0 <= j < parts.len() ==> !(#[trigger] texts(parts@)[j]).contains(','),
        decreases n - i,
    {
        let c = s.get_char(i);
        if c == ',' {
            let piece = s.substring_char(start, i).to_string();
            proof {
                lemma_texts_push(parts@, piece);
                lemma_joined_push(texts(parts@), piece@, ',');
                if parts.len() == 0 {
                    assert(s@.subrange(0, i as int) =~= piece@);
                } else {
                    assert(s@.subrange(0, i as int) =~= s@.subrange(0, start as int) + piece@);
                }
                assert(s@.subrange(0, i as int + 1) =~= s@.subrange(0, i as int) + seq![',']);
                assert forall|j: int| 0 <= j < parts.len() + 1 implies !(#[trigger] texts(
                    parts@.push(piece),
                )[j]).contains(',') by {
                    if j == parts.len() {
                        assert(texts(parts@.push(piece))[j] == piece@);
                        if piece@.contains(',') {
                            let k = choose|k: int| 0 <= k < piece@.len() && piece@[k] == ',';
                            assert(s@[start + k] == ',');
                        }
                    } else {
                        assert(texts(parts@.push(piece))[j] == texts(parts@)[j]);
                    }
                }
            }
            parts.push(piece);
            start = i + 1;
        }
        i = i + 1;
    }
    let last = s.substring_char(start, n).to_string();
    proof {
        lemma_texts_push(parts@, last);
        lemma_joined_push(texts(parts@), last@, ',');
        if parts.len() == 0 {
            assert(s@ =~= last@);
        } else {
            assert(s@ =~= s@.subrange(0, start as int) + last@);
        }
        assert forall|j: int| 0 <= j < parts.len() + 1 implies !(#[trigger] texts(
            parts@.push(last),
        )[j]).contains(',') by {
            if j == parts.len() {
                assert(texts(parts@.push(last))[j] == last@);
                if last@.contains(',') {
                    let k = choose|k: int| 0 <= k < last@.len() && last@[k] == ',';
                    assert(s@[start + k] == ',');
                }
            } else {
                assert(texts(parts@.push(last))[j] == texts(parts@)[j]);
            }
        }
    }
    parts.push(last);
    parts
}

/// Reads a comma-separated list field: no list when the field is absent or
/// empty, else the pieces between commas.
pub fn comma_list(s: Option<&str>) -> (r: Option<Vec<String>>)
    ensures
        list_field(s, r),
{
    match s {
        None => None,
        Some(t) => {
            if t.unicode_len() == 0 {
                None
            } else {
                Some(split_commas(t))
            }
        },
    }
}

fn text_or_default(s: Option<&str>) -> (r: String)
    ensures
        r@ == text_or_empty(s),
{
    match s {
        Some(t) => t.to_string(),
        None => String::new(),
    }
}

impl SendRequest {
    /// A request is usable once it names a recipient.
    pub open spec fn wf(&self) -> bool {
        self.to@.len() > 0
    }

    /// Builds a request from the raw fields: subject and body default to the
    /// empty string, the copy lists are split at commas, the HTML body is
    /// passed through, and an empty recipient is refused.
    pub fn build(
        to: &str,
        subject: Option<&str>,
        body: Option<&str>,
        cc: Option<&str>,
        bcc: Option<&str>,
        html_body: Option<&str>,
        is_draft: bool,
    ) -> (r: Result<SendRequest, ValidationError>)
        ensures
            r is Err <==> to@.len() == 0,
            r is Err ==> r->Err_0 == ValidationError::MissingRecipient,
            r is Ok ==> ({
                let q = r->Ok_0;
                &&& q.wf()
                &&& q.to@ == to@
                &&& q.subject@ == text_or_empty(subject)
                &&& q.body@ == text_or_empty(body)
                &&& list_field(cc, q.cc)
                &&& list_field(bcc, q.bcc)
                &&& same_text(html_body, q.html_body)
                &&& q.is_draft == is_draft
            }),
    {
        if to.unicode_len() == 0 {
            return Err(ValidationError::MissingRecipient);
        }
        let html = match html_body {
            Some(h) => Some(h.to_string()),
            None => None,
        };
        Ok(SendRequest {
            to: to.to_string(),
            subject: text_or_default(subject),
            body: text_or_default(body),
            cc: comma_list(cc),
            bcc: comma_list(bcc),
            html_body: html,
            is_draft,
        })
    }
}

} // verus!
