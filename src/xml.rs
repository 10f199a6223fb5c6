use vstd::prelude::*;

use crate::text::str_eq;

verus! {

/// One element of a schema: its attributes as (key, value) pairs, and its child
/// elements in document order as (tag, text) pairs.
pub struct XmlNode {
    pub attributes: Vec<(String, String)>,
    pub children: Vec<(String, String)>,
}

/// The value of the first attribute named `key` at or after index `from`.
pub open spec fn find_attr(attrs: Seq<(String, String)>, key: Seq<char>, from: int) -> Option<
    Seq<char>,
>
    decreases attrs.len() - from,
{
    if from < 0 || from >= attrs.len() {
        None
    } else if attrs[from].0@ == key {
        Some(attrs[from].1@)
    } else {
        find_attr(attrs, key, from + 1)
    }
}

/// Whether the child at `pos` exists and carries `tag`.
pub open spec fn at_tag(ch: Seq<(String, String)>, pos: int, tag: Seq<char>) -> bool {
    0 <= pos < ch.len() && ch[pos].0@ == tag
}

/// The text of the child at `pos` when it carries `tag`.
pub open spec fn text_if(ch: Seq<(String, String)>, pos: int, tag: Seq<char>) -> Option<Seq<char>> {
    if at_tag(ch, pos, tag) {
        Some(ch[pos].1@)
    } else {
        None
    }
}

/// Where reading resumes after an optional child with `tag` at `pos`.
pub open spec fn next_pos(ch: Seq<(String, String)>, pos: int, tag: Seq<char>) -> int {
    if at_tag(ch, pos, tag) {
        pos + 1
    } else {
        pos
    }
}

/// Where reading resumes after a run of children with `tag` that starts at `pos`.
pub open spec fn run_end(ch: Seq<(String, String)>, pos: int, tag: Seq<char>) -> int
    decreases ch.len() - pos,
{
    if 0 <= pos && at_tag(ch, pos, tag) {
        run_end(ch, pos + 1, tag)
    } else {
        pos
    }
}

proof fn lemma_run_end_bounds(ch: Seq<(String, String)>, pos: int, tag: Seq<char>)
    requires
        0 <= pos <= ch.len(),
    ensures
        pos <= run_end(ch, pos, tag) <= ch.len(),
        forall|j: int| pos <= j < run_end(ch, pos, tag) ==> at_tag(ch, j, tag),
    decreases ch.len() - pos,
{
    if at_tag(ch, pos, tag) {
        lemma_run_end_bounds(ch, pos + 1, tag);
    }
}

impl XmlNode {
    /// The value of the first attribute named `key`.
    pub fn attribute_of(&self, key: &str) -> (r: Option<String>)
        ensures
            match r {
                Some(v) => find_attr(self.attributes@, key@, 0) == Some(v@),
                None => find_attr(self.attributes@, key@, 0).is_none(),
            },
    {
        let mut i: usize = 0;
        while i < self.attributes.len()
            invariant
                0 <= i <= self.attributes@.len(),
                find_attr(self.attributes@, key@, 0) == find_attr(self.attributes@, key@, i as int),
            decreases self.attributes@.len() - i,
        {
            if str_eq(self.attributes[i].0.as_str(), key) {
                return Some(self.attributes[i].1.clone());
            }
            i = i + 1;
        }
        None
    }

    /// Reads the child at `*pos` when it carries `tag`, and moves past it.
    pub fn parse_if(&self, pos: &mut usize, tag: &str) -> (r: Option<String>)
        requires
            *old(pos) <= self.children@.len(),
        ensures
            *final(pos) as int == next_pos(self.children@, *old(pos) as int, tag@),
            *final(pos) <= self.children@.len(),
            match r {
                Some(t) => text_if(self.children@, *old(pos) as int, tag@) == Some(t@),
                None => text_if(self.children@, *old(pos) as int, tag@).is_none(),
            },
    {
        if *pos < self.children.len() && str_eq(self.children[*pos].0.as_str(), tag) {
            let t = self.children[*pos].1.clone();
            *pos = *pos + 1;
            Some(t)
        } else {
            None
        }
    }

    /// Reads the run of children carrying `tag` that starts at `*pos`.
    pub fn parse_while(&self, pos: &mut usize, tag: &str) -> (r: Vec<String>)
        requires
            *old(pos) <= self.children@.len(),
        ensures
            *final(pos) as int == run_end(self.children@, *old(pos) as int, tag@),
            *old(pos) <= *final(pos) <= self.children@.len(),
            r@.map_values(|s: String| s@) == self.children@.subrange(
                *old(pos) as int,
                *final(pos) as int,
            ).map_values(|c: (String, String)| c.1@),
    {
        let ghost start = *pos as int;
        let ghost ch = self.children@;
        proof {
            lemma_run_end_bounds(ch, start, tag@);
        }
        let mut out: Vec<String> = Vec::new();
        loop
            invariant
                ch == self.children@,
                0 <= start <= *pos <= ch.len(),
                run_end(ch, start, tag@) == run_end(ch, *pos as int, tag@),
                out@.map_values(|s: String| s@) == ch.subrange(start, *pos as int).map_values(
                    |c: (String, String)| c.1@,
                ),
            ensures
                run_end(ch, start, tag@) == *pos as int,
                0 <= start <= *pos <= ch.len(),
                out@.map_values(|s: String| s@) == ch.subrange(start, *pos as int).map_values(
                    |c: (String, String)| c.1@,
                ),
            decreases ch.len() - *pos,
        {
            if *pos >= self.children.len() || !str_eq(self.children[*pos].0.as_str(), tag) {
                break;
            }
            let ghost p = *pos as int;
            let ghost before = out@;
            let t = self.children[*pos].1.clone();
            let ghost tv = t@;
            out.push(t);
            *pos = *pos + 1;
            proof {
                assert(at_tag(ch, p, tag@));
                assert(run_end(ch, p, tag@) == run_end(ch, p + 1, tag@));
                assert(out@ == before.push(t));
                assert(ch.subrange(start, p + 1) =~= ch.subrange(start, p).push(ch[p]));
                assert(tv == ch[p].1@);
                assert(out@.map_values(|s: String| s@) =~= before.map_values(|s: String| s@).push(tv));
                assert(ch.subrange(start, p + 1).map_values(|c: (String, String)| c.1@)
                    =~= ch.subrange(start, p).map_values(|c: (String, String)| c.1@).push(tv));
                assert(out@.map_values(|s: String| s@) =~= ch.subrange(start, *pos as int).map_values(
                    |c: (String, String)| c.1@,
                ));
            }
        }
        out
    }
}

} // verus!
