use vstd::prelude::*;
use vstd::string::StringExecFns;
use crate::text::{chars_of, count_of, find_and_count, index_of, push_all, string_of, sub_chars};

verus! {

/// The text is not of the form `owner/name` or `owner/name:version`.
#[derive(Debug, Clone, Copy, PartialEq, Eq, Structural)]
pub struct InvalidIdentifierError;

impl InvalidIdentifierError {
    pub fn to_string(&self) -> (r: String) {
        String::from_str(
            "invalid identifier, it must be in the format \"owner/name\" or \"owner/name:version\"",
        )
    }
}

/// A model reference: `owner/name`, with an optional `:version`.
#[derive(Debug, Clone)]
pub struct Identifier {
    pub owner: String,
    pub name: String,
    pub version: Option<String>,
}

impl PartialEq for Identifier {
    fn eq(&self, other: &Identifier) -> (r: bool)
        ensures
            r == (self.parts() == other.parts()),
    {
        let versions = match (&self.version, &other.version) {
            (Some(a), Some(b)) => string_eq(a, b),
            (None, None) => true,
            _ => false,
        };
        string_eq(&self.owner, &other.owner) && string_eq(&self.name, &other.name) && versions
    }
}

fn string_eq(a: &String, b: &String) -> (r: bool)
    ensures
        r == (a@ == b@),
{
    let x = chars_of(a.as_str());
    let y = chars_of(b.as_str());
    if x.len() != y.len() {
        return false;
    }
    let mut i: usize = 0;
    while i < x.len()
        invariant
            x@ == a@,
            y@ == b@,
            x.len() == y.len(),
            i <= x.len(),
            forall|j: int| 0 <= j < i ==> x@[j] == y@[j],
        decreases x.len() - i,
    {
        if x[i] != y[i] {
            assert(a@[i as int] != b@[i as int]);
            return false;
        }
        i = i + 1;
    }
    assert(x@ =~= y@);
    true
}

impl vstd::std_specs::cmp::PartialEqSpecImpl for Identifier {
    open spec fn obeys_eq_spec() -> bool {
        true
    }

    open spec fn eq_spec(&self, other: &Identifier) -> bool {
        self.parts() == other.parts()
    }
}

impl Eq for Identifier {

}

/// The parts of a parsed identifier, as character sequences.
pub struct IdParts {
    pub owner: Seq<char>,
    pub name: Seq<char>,
    pub version: Option<Seq<char>>,
}

/// What parsing `s` yields: `None` unless `s` holds exactly one `/` with a
/// non-empty owner before it and a non-empty name after it; the name ends
/// at the first `:` after the `/`, and whatever follows that `:` is the version.
pub open spec fn spec_parse(s: Seq<char>) -> Option<IdParts> {
    let p = index_of(s, '/');
    let owner = s.take(p);
    let rest = s.skip(p + 1);
    let q = index_of(rest, ':');
    let name = if q < 0 {
        rest
    } else {
        rest.take(q)
    };
    let version = if q < 0 {
        None
    } else {
        Some(rest.skip(q + 1))
    };
    if count_of(s, '/') != 1 || owner.len() == 0 || name.len() == 0 {
        None
    } else {
        Some(IdParts { owner, name, version })
    }
}

impl Identifier {
    pub open spec fn parts(&self) -> IdParts {
        IdParts {
            owner: self.owner@,
            name: self.name@,
            version: match self.version {
                Some(v) => Some(v@),
                None => None,
            },
        }
    }

    /// Parses `owner/name` or `owner/name:version`.
    pub fn parse(identifier: &str) -> (r: Result<Identifier, InvalidIdentifierError>)
        ensures
            match r {
                Ok(id) => spec_parse(identifier@) == Some(id.parts()),
                Err(_) => spec_parse(identifier@) is None,
            },
    {
        let s = chars_of(identifier);
        let (slash, n) = find_and_count(&s, '/');
        if n != 1 {
            return Err(InvalidIdentifierError);
        }
        proof {
            crate::text::lemma_index_of_bounds(s@, '/');
            crate::text::lemma_count_finds(s@, '/');
        }
        let p = match slash {
            Some(p) => p,
            None => {
                return Err(InvalidIdentifierError);
            },
        };
        let owner = sub_chars(&s, 0, p);
        let rest = sub_chars(&s, p + 1, s.len());
        assert(owner@ =~= s@.take(p as int));
        assert(rest@ =~= s@.skip(p + 1));
        let (colon, _) = find_and_count(&rest, ':');
        proof {
            crate::text::lemma_index_of_bounds(rest@, ':');
        }
        let (name, version) = match colon {
            Some(q) => {
                let name = sub_chars(&rest, 0, q);
                let version = sub_chars(&rest, q + 1, rest.len());
                assert(name@ =~= rest@.take(q as int));
                assert(version@ =~= rest@.skip(q + 1));
                (name, Some(string_of(version.as_slice())))
            },
            None => (rest, None),
        };
        if owner.len() == 0 || name.len() == 0 {
            return Err(InvalidIdentifierError);
        }
        let id = Identifier {
            owner: string_of(owner.as_slice()),
            name: string_of(name.as_slice()),
            version,
        };
        assert(spec_parse(identifier@) == Some(id.parts()));
        Ok(id)
    }

    /// The text `owner:name`, followed by `:version` where there is one.
    pub fn to_string(&self) -> (r: String)
        ensures
            r@ == self.owner@ + seq![':'] + self.name@ + match self.version {
                Some(v) => seq![':'] + v@,
                None => Seq::empty(),
            },
    {
        let mut out = chars_of(self.owner.as_str());
        out.push(':');
        push_all(&mut out, &chars_of(self.name.as_str()));
        match &self.version {
            Some(v) => {
                out.push(':');
                push_all(&mut out, &chars_of(v.as_str()));
            },
            None => {},
        }
        string_of(out.as_slice())
    }
}

} // verus!
