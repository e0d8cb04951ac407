use vstd::prelude::*;
use vstd::string::StringExecFns;
use crate::text::{
    chars_of, index_of, is_ascii_seq, lines_of, segments, skip_ws, strip_cr, string_of, sub_chars,
    trim_start,
};

verus! {

/// Event data held characters outside ASCII.
#[derive(Debug, Clone, Copy, PartialEq, Eq, Structural)]
pub struct InvalidUTF8DataError;

impl InvalidUTF8DataError {
    pub fn to_string(&self) -> (r: String)
        ensures
            r@ == "invalid UTF-8 data"@,
    {
        String::from_str("invalid UTF-8 data")
    }
}

/// One event of a job's event stream.
#[derive(Debug, Clone)]
pub struct SSEEvent {
    pub event_type: String,
    pub id: String,
    pub data: String,
}

/// The fields gathered so far while decoding an event block.
pub struct Fields {
    pub id: Seq<char>,
    pub event: Seq<char>,
    pub data: Seq<Seq<char>>,
}

pub open spec fn no_fields() -> Fields {
    Fields { id: Seq::empty(), event: Seq::empty(), data: Seq::empty() }
}

/// One `field: value` line: the field ends at the first `:`, leading
/// whitespace of the value is dropped, and fields other than `id`, `event`
/// and `data` are ignored, as are lines without a `:`.
pub open spec fn apply_line(f: Fields, line: Seq<char>) -> Fields {
    let q = index_of(line, ':');
    let field = line.take(q);
    let value = trim_start(line.skip(q + 1));
    if q < 0 {
        f
    } else if field == seq!['i', 'd'] {
        Fields { id: value, ..f }
    } else if field == seq!['e', 'v', 'e', 'n', 't'] {
        Fields { event: value, ..f }
    } else if field == seq!['d', 'a', 't', 'a'] {
        Fields { data: f.data.push(value), ..f }
    } else {
        f
    }
}

pub open spec fn apply_lines(ls: Seq<Seq<char>>) -> Fields
    decreases ls.len(),
{
    if ls.len() == 0 {
        no_fields()
    } else {
        apply_line(apply_lines(ls.drop_last()), ls.last())
    }
}

/// The pieces of `ds` joined with a newline between each two.
pub open spec fn join_lines(ds: Seq<Seq<char>>) -> Seq<char>
    decreases ds.len(),
{
    if ds.len() == 0 {
        Seq::empty()
    } else if ds.len() == 1 {
        ds[0]
    } else {
        join_lines(ds.drop_last()) + seq!['\n'] + ds.last()
    }
}

/// The event that `block` decodes to, or `None` where its data is not ASCII.
pub open spec fn spec_decode(block: Seq<char>) -> Option<(Seq<char>, Seq<char>, Seq<char>)> {
    let f = apply_lines(lines_of(block));
    let data = join_lines(f.data);
    if data.len() > 0 && !is_ascii_seq(data) {
        None
    } else {
        Some((f.event, f.id, data))
    }
}

/// Decoding state: the fields so far, with the data lines already joined.
struct Decoding {
    id: Vec<char>,
    event: Vec<char>,
    data: Vec<char>,
    has_data: bool,
}

impl Decoding {
    spec fn matches(&self, f: Fields) -> bool {
        &&& self.id@ == f.id
        &&& self.event@ == f.event
        &&& self.data@ == join_lines(f.data)
        &&& self.has_data == (f.data.len() > 0)
    }

    fn apply(&mut self, line: &Vec<char>, Ghost(f): Ghost<Fields>)
        requires
            old(self).matches(f),
        ensures
            final(self).matches(apply_line(f, line@)),
    {
        let (colon, _) = crate::text::find_and_count(line, ':');
        proof {
            crate::text::lemma_index_of_bounds(line@, ':');
        }
        let q = match colon {
            Some(q) => q,
            None => {
                return ;
            },
        };
        assert(index_of(line@, ':') == q);
        assert(q < line.len());
        let start = skip_ws(line, q + 1);
        let value = sub_chars(line, start, line.len());
        assert(value@ =~= line@.skip(start as int));
        assert(line@.take(q as int).len() == q);
        if q == 2 && line[0] == 'i' && line[1] == 'd' {
            assert(line@.take(q as int) =~= seq!['i', 'd']);
            self.id = value;
        } else if q == 5 && line[0] == 'e' && line[1] == 'v' && line[2] == 'e' && line[3] == 'n'
            && line[4] == 't' {
            assert(line@.take(q as int) =~= seq!['e', 'v', 'e', 'n', 't']);
            self.event = value;
        } else if q == 4 && line[0] == 'd' && line[1] == 'a' && line[2] == 't' && line[3] == 'a' {
            assert(line@.take(q as int) =~= seq!['d', 'a', 't', 'a']);
            let ghost pushed = f.data.push(value@);
            assert(pushed.drop_last() =~= f.data);
            if self.has_data {
                self.data.push('\n');
            }
            crate::text::push_all(&mut self.data, &value);
            assert(self.data@ =~= join_lines(pushed));
            self.has_data = true;
        }
    }
}

impl SSEEvent {
    /// The text an event shows: the data of an `output` event, and nothing
    /// for any other.
    pub fn to_string(&self) -> (r: String)
        ensures
            r@ == if self.event_type@ == seq!['o', 'u', 't', 'p', 'u', 't'] {
                self.data@
            } else {
                Seq::empty()
            },
    {
        let t = chars_of(self.event_type.as_str());
        if t.len() == 6 && t[0] == 'o' && t[1] == 'u' && t[2] == 't' && t[3] == 'p' && t[4] == 'u'
            && t[5] == 't' {
            assert(t@ =~= seq!['o', 'u', 't', 'p', 'u', 't']);
            String::from_str(self.data.as_str())
        } else {
            String::new()
        }
    }

    pub open spec fn spec_fields(&self) -> (Seq<char>, Seq<char>, Seq<char>) {
        (self.event_type@, self.id@, self.data@)
    }

    /// Decodes one event block: `field: value` lines, without the blank
    /// line that ends the block.
    pub fn decode(input: &str) -> (r: Result<SSEEvent, InvalidUTF8DataError>)
        ensures
            match r {
                Ok(e) => spec_decode(input@) == Some(e.spec_fields()),
                Err(_) => spec_decode(input@) is None,
            },
    {
        let cs = chars_of(input);
        let mut st = Decoding { id: Vec::new(), event: Vec::new(), data: Vec::new(), has_data: false };
        let mut cur: Vec<char> = Vec::new();
        let ghost mut done: Seq<Seq<char>> = Seq::empty();
        let mut i: usize = 0;
        proof {
            assert(cs@.take(0) =~= Seq::<char>::empty());
            assert(st.data@ =~= join_lines(Seq::empty()));
        }
        while i < cs.len()
            invariant
                i <= cs.len(),
                segments(cs@.take(i as int)).len() >= 1,
                done == segments(cs@.take(i as int)).drop_last().map_values(
                    |l: Seq<char>| strip_cr(l),
                ),
                cur@ == segments(cs@.take(i as int)).last(),
                st.matches(apply_lines(done)),
            decreases cs.len() - i,
        {
            let ghost pre = cs@.take(i as int);
            assert(cs@.take(i + 1).drop_last() =~= pre);
            proof {
                crate::text::lemma_segments_len(cs@.take(i + 1));
            }
            let c = cs[i];
            if c == '\n' {
                let ghost l = strip_cr(cur@);
                if cur.len() > 0 && cur[cur.len() - 1] == '\r' {
                    cur.pop();
                }
                assert(cur@ =~= l);
                st.apply(&cur, Ghost(apply_lines(done)));
                proof {
                    let nd = done.push(l);
                    assert(nd.drop_last() =~= done);
                    let g = segments(cs@.take(i + 1));
                    assert(g.drop_last() =~= segments(pre));
                    assert(g.drop_last().map_values(|l: Seq<char>| strip_cr(l)) =~= nd);
                    done = nd;
                }
                cur = Vec::new();
                assert(cur@ =~= segments(cs@.take(i + 1)).last());
            } else {
                cur.push(c);
                proof {
                    let g = segments(cs@.take(i + 1));
                    assert(g.drop_last() =~= segments(pre).drop_last());
                }
            }
            i = i + 1;
        }
        assert(cs@.take(cs.len() as int) =~= cs@);
        if cur.len() > 0 {
            let ghost f = apply_lines(done);
            st.apply(&cur, Ghost(f));
            proof {
                let nd = done.push(cur@);
                assert(nd.drop_last() =~= done);
                assert(lines_of(input@) == nd);
            }
        } else {
            assert(lines_of(input@) == done);
        }
        if st.data.len() > 0 && !crate::text::all_ascii(&st.data) {
            return Err(InvalidUTF8DataError);
        }
        Ok(
            SSEEvent {
                event_type: string_of(st.event.as_slice()),
                id: string_of(st.id.as_slice()),
                data: string_of(st.data.as_slice()),
            },
        )
    }
}

} // verus!
