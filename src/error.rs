use vstd::prelude::*;
use vstd::string::StringExecFns;
use crate::prediction::Prediction;
use crate::text::{debug_quoted, debug_text, text_of_bytes, utf8_lossy};

verus! {

/// An error the service reported, in its structured form; every part is
/// optional.
#[derive(Debug, Clone)]
pub struct APIError {
    pub error_type: Option<String>,
    pub title: Option<String>,
    pub status: Option<i32>,
    pub detail: Option<String>,
    pub instance: Option<String>,
}

pub open spec fn part(o: Option<String>) -> Seq<Seq<char>> {
    match o {
        Some(s) => seq![s@],
        None => Seq::empty(),
    }
}

/// The pieces of `ps` joined with `": "` between each two.
pub open spec fn join_colon(ps: Seq<Seq<char>>) -> Seq<char>
    decreases ps.len(),
{
    if ps.len() == 0 {
        Seq::empty()
    } else if ps.len() == 1 {
        ps[0]
    } else {
        join_colon(ps.drop_last()) + ": "@ + ps.last()
    }
}

impl APIError {
    pub open spec fn parts(&self) -> Seq<Seq<char>> {
        part(self.error_type) + part(self.title) + part(self.detail)
    }

    /// Type, title and detail, those present, joined by `": "` (or
    /// `unknown error` where none is), then ` (instance)` where there is one.
    pub open spec fn spec_message(&self) -> Seq<char> {
        let out = if self.parts().len() == 0 {
            "unknown error"@
        } else {
            join_colon(self.parts())
        };
        match self.instance {
            Some(i) => out + " ("@ + i@ + ")"@,
            None => out,
        }
    }

    pub fn to_string(&self) -> (r: String)
        ensures
            r@ == self.spec_message(),
    {
        let mut out = String::new();
        let mut any = false;
        let ghost mut ps: Seq<Seq<char>> = Seq::empty();
        add_part(&mut out, &mut any, &self.error_type, Ghost(ps));
        proof {
            ps = ps + part(self.error_type);
        }
        add_part(&mut out, &mut any, &self.title, Ghost(ps));
        proof {
            ps = ps + part(self.title);
        }
        add_part(&mut out, &mut any, &self.detail, Ghost(ps));
        proof {
            ps = ps + part(self.detail);
            assert(ps =~= self.parts());
        }
        if !any {
            out = String::from_str("unknown error");
        }
        match &self.instance {
            Some(i) => {
                out.append(" (");
                out.append(i.as_str());
                out.append(")");
            },
            None => {},
        }
        out
    }

    /// The error for an answer with status `status` and body `body`:
    /// `parsed` is the body read as the structured form, where it was one.
    /// A missing status is filled in from the answer; a body that was not
    /// one is kept, quoted, as the detail.
    pub fn from_body(parsed: Option<APIError>, body: &[u8], status: u16) -> (r: APIError)
        ensures
            match parsed {
                Some(e) => {
                    &&& r.error_type == e.error_type
                    &&& r.title == e.title
                    &&& r.detail == e.detail
                    &&& r.instance == e.instance
                    &&& r.status == match e.status {
                        Some(s) => Some(s),
                        None => Some(status as i32),
                    }
                },
                None => {
                    &&& r.error_type is None
                    &&& r.title is None
                    &&& r.instance is None
                    &&& r.status == Some(status as i32)
                    &&& r.detail is Some
                    &&& r.detail->0@ == "Unknown error: "@ + debug_quoted(utf8_lossy(body@))
                },
            },
    {
        match parsed {
            Some(e) => {
                let status = match e.status {
                    Some(s) => Some(s),
                    None => Some(status as i32),
                };
                APIError { status, ..e }
            },
            None => {
                let text = text_of_bytes(body);
                let mut detail = String::from_str("Unknown error: ");
                detail.append(debug_text(text.as_str()).as_str());
                APIError {
                    error_type: None,
                    title: None,
                    status: Some(status as i32),
                    detail: Some(detail),
                    instance: None,
                }
            },
        }
    }
}

proof fn lemma_join_push(ps: Seq<Seq<char>>, x: Seq<char>)
    requires
        ps.len() > 0,
    ensures
        join_colon(ps.push(x)) == join_colon(ps) + ": "@ + x,
{
    assert(ps.push(x).drop_last() =~= ps);
}

/// Appends the part `o`, if present, to the joined parts `ps` in `out`.
fn add_part(out: &mut String, any: &mut bool, o: &Option<String>, Ghost(ps): Ghost<Seq<Seq<char>>>)
    requires
        old(out)@ == join_colon(ps),
        *old(any) == (ps.len() > 0),
    ensures
        final(out)@ == join_colon(ps + part(*o)),
        *final(any) == ((ps + part(*o)).len() > 0),
{
    match o {
        Some(s) => {
            proof {
                assert(ps + part(*o) =~= ps.push(s@));
                if ps.len() > 0 {
                    lemma_join_push(ps, s@);
                } else {
                    assert(ps.push(s@) =~= seq![s@]);
                }
            }
            if *any {
                out.append(": ");
            }
            out.append(s.as_str());
            *any = true;
        },
        None => {
            assert(ps + part(*o) =~= ps);
        },
    }
}

/// A job that ended in failure.
#[derive(Debug, Clone)]
pub struct ModelError {
    pub prediction: Prediction,
}

/// Relies on serde_json's `Value::as_str`: the text of a JSON string.
#[verifier::external_body]
fn json_text(v: &serde_json::Value) -> (r: Option<String>) {
    v.as_str().map(|s| s.to_string())
}

impl ModelError {
    /// `model error: `, then the text of the job's error (`unknown error`
    /// where it has none that is a JSON string).
    pub fn to_string(&self) -> (r: String) {
        let text = match &self.prediction.error {
            Some(v) => json_text(v),
            None => None,
        };
        match text {
            Some(t) => model_error_message(Some(t.as_str())),
            None => model_error_message(None),
        }
    }
}

/// `model error: ` followed by `text`, or by `unknown error` without one.
pub fn model_error_message(text: Option<&str>) -> (r: String)
    ensures
        r@ == "model error: "@ + match text {
            Some(t) => t@,
            None => "unknown error"@,
        },
{
    let mut s = String::from_str("model error: ");
    match text {
        Some(t) => s.append(t),
        None => s.append("unknown error"),
    }
    s
}

} // verus!
