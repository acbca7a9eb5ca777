//! Resident memory of the bot and its child processes, read from the text
//! of `/proc` files (which are read outside the library).

use vstd::prelude::*;

use crate::text::{
    chars_of, drop_empty, drop_empty_exec, last_index, parse_u64, parse_u64_spec, split_class,
    split_exec, string_from, views, CharClass,
};

verus! {

/// The kibibytes in a memory page of `page_size` bytes (`sysconf`'s
/// answer); 4 when the answer is unusable.
pub fn page_kb(page_size: i64) -> (kb: u64)
    ensures
        kb == (if page_size <= 0 {
            4
        } else {
            page_size / 1024
        }),
{
    if page_size <= 0 {
        4
    } else {
        (page_size as u64) / 1024
    }
}

/// `str::split_whitespace`: the non-empty runs between whitespace.
pub open spec fn words(s: Seq<char>) -> Seq<Seq<char>> {
    drop_empty(split_class(s, CharClass::Whitespace))
}

fn words_exec(s: &Vec<char>) -> (r: Vec<Vec<char>>)
    ensures
        views(r@) == words(s@),
{
    drop_empty_exec(split_exec(s, CharClass::Whitespace))
}

/// The resident pages that `/proc/self/statm` reports (its second field);
/// 0 when it is missing or not a number.
pub open spec fn statm_pages_spec(statm: Seq<char>) -> u64 {
    let w = words(statm);
    if w.len() > 1 {
        match parse_u64_spec(w[1]) {
            Some(n) => n,
            None => 0,
        }
    } else {
        0
    }
}

pub fn statm_resident_pages(statm: &str) -> (n: u64)
    ensures
        n == statm_pages_spec(statm@),
{
    let w = words_exec(&chars_of(statm));
    let ghost wv = views(w@);
    if w.len() > 1 {
        assert(wv[1] == w@[1]@);
        match parse_u64(&w[1]) {
            Some(n) => n,
            None => 0,
        }
    } else {
        0
    }
}

/// What a `/proc/PID/stat` line says about a process.
#[derive(Clone, Debug)]
pub struct ProcStat {
    /// The command name, between the first `(` and the last `)`.
    pub comm: String,
    /// The parent pid (`None` when it does not parse).
    pub ppid: Option<u32>,
    /// Resident pages (0 when they do not parse).
    pub rss_pages: u64,
}

/// The first index of `c` in `s`.
pub open spec fn first_index(s: Seq<char>, c: char) -> Option<int>
    decreases s.len(),
{
    if s.len() == 0 {
        None
    } else if s[0] == c {
        Some(0)
    } else {
        match first_index(s.drop_first(), c) {
            Some(i) => Some(i + 1),
            None => None,
        }
    }
}

pub open spec fn parse_u32_spec(s: Seq<char>) -> Option<u32> {
    match parse_u64_spec(s) {
        Some(n) => if n <= u32::MAX {
            Some(n as u32)
        } else {
            None
        },
        None => None,
    }
}

/// The fields of a stat line: the name between the first `(` and the last
/// `)`, and after it the fields; the parent pid is the second and the
/// resident pages the twenty-second. `None` when the parentheses are
/// missing or out of order, or fewer than 22 fields follow.
pub open spec fn parse_proc_stat_spec(stat: Seq<char>) -> Option<(Seq<char>, Option<u32>, u64)> {
    match (first_index(stat, '('), last_index(stat, ')')) {
        (Some(a), Some(b)) => if b > a {
            let f = words(stat.skip(b + 1));
            if f.len() < 22 {
                None
            } else {
                Some(
                    (
                        stat.subrange(a + 1, b),
                        parse_u32_spec(f[1]),
                        match parse_u64_spec(f[21]) {
                            Some(n) => n,
                            None => 0,
                        },
                    ),
                )
            }
        } else {
            None
        },
        _ => None,
    }
}

proof fn lemma_first_index(s: Seq<char>, c: char, k: int)
    requires
        0 <= k <= s.len(),
        forall|j: int| 0 <= j < k ==> #[trigger] s[j] != c,
    ensures
        k < s.len() && s[k] == c ==> first_index(s, c) == Some(k),
        k == s.len() ==> first_index(s, c) is None,
    decreases k,
{
    if k > 0 {
        let t = s.drop_first();
        assert forall|j: int| 0 <= j < k - 1 implies #[trigger] t[j] != c by {
            assert(t[j] == s[j + 1]);
        }
        if k < s.len() {
            assert(t[k - 1] == s[k]);
        }
        lemma_first_index(t, c, k - 1);
    }
}

fn first_index_exec(s: &Vec<char>, c: char) -> (r: Option<usize>)
    ensures
        r matches Some(i) ==> first_index(s@, c) == Some(i as int) && i < s@.len(),
        r is None ==> first_index(s@, c) is None,
{
    let mut i: usize = 0;
    while i < s.len()
        invariant
            i <= s@.len(),
            forall|j: int| 0 <= j < i ==> #[trigger] s@[j] != c,
        decreases s.len() - i,
    {
        if s[i] == c {
            proof {
                lemma_first_index(s@, c, i as int);
            }
            return Some(i);
        }
        i += 1;
    }
    proof {
        lemma_first_index(s@, c, s@.len() as int);
    }
    None
}

/// Reads a `/proc/PID/stat` line.
pub fn parse_proc_stat(stat: &str) -> (r: Option<ProcStat>)
    ensures
        r matches Some(p) ==> parse_proc_stat_spec(stat@) == Some((p.comm@, p.ppid, p.rss_pages)),
        r is None ==> parse_proc_stat_spec(stat@) is None,
{
    let v = chars_of(stat);
    let a = match first_index_exec(&v, '(') {
        Some(a) => a,
        None => return None,
    };
    let b = match crate::text::last_index_exec(&v, ')') {
        Some(b) => b,
        None => return None,
    };
    if b <= a {
        return None;
    }
    let comm = crate::text::slice_of(&v, a + 1, b);
    let after = crate::text::suffix_from(&v, b + 1);
    let f = words_exec(&after);
    let ghost fv = views(f@);
    if f.len() < 22 {
        return None;
    }
    assert(fv[1] == f@[1]@ && fv[21] == f@[21]@);
    let ppid = match parse_u64(&f[1]) {
        Some(n) => if n <= 0xffff_ffff {
            Some(n as u32)
        } else {
            None
        },
        None => None,
    };
    let rss_pages = match parse_u64(&f[21]) {
        Some(n) => n,
        None => 0,
    };
    Some(ProcStat { comm: string_from(&comm), ppid, rss_pages })
}

/// How many distinct child names a snapshot lists.
pub const NAME_LIMIT: usize = 6;

/// The children of the bot counted so far.
#[derive(Debug)]
pub struct ChildTally {
    pub kb: u64,
    pub count: usize,
    /// Distinct command names, first seen first, at most six.
    pub names: Vec<String>,
}

pub open spec fn names_view(v: Seq<String>) -> Seq<Seq<char>> {
    v.map_values(|s: String| s@)
}

impl ChildTally {
    pub fn new() -> (t: Self)
        ensures
            t.kb == 0,
            t.count == 0,
            t.names@.len() == 0,
    {
        ChildTally { kb: 0, count: 0, names: Vec::new() }
    }

    /// Counts one child process: its resident memory and, when there is
    /// room and it is new, its name.
    pub fn add(&mut self, comm: &str, rss_pages: u64, page_kb: u64)
        requires
            old(self).kb + rss_pages * page_kb <= u64::MAX,
            old(self).count < usize::MAX,
        ensures
            final(self).kb == old(self).kb + rss_pages * page_kb,
            final(self).count == old(self).count + 1,
            names_view(final(self).names@) == (if old(self).names@.len() < NAME_LIMIT
                && !names_view(old(self).names@).contains(comm@) {
                names_view(old(self).names@).push(comm@)
            } else {
                names_view(old(self).names@)
            }),
    {
        assert(rss_pages * page_kb <= u64::MAX);
        self.kb = self.kb + rss_pages * page_kb;
        self.count = self.count + 1;
        if self.names.len() < NAME_LIMIT {
            let c = chars_of(comm);
            let mut seen = false;
            let mut i: usize = 0;
            let ghost nv = names_view(self.names@);
            while i < self.names.len()
                invariant
                    i <= self.names@.len(),
                    nv == names_view(self.names@),
                    c@ == comm@,
                    seen == (exists|j: int| 0 <= j < i && nv[j] == comm@),
                decreases self.names.len() - i,
            {
                if crate::text::chars_eq(&chars_of(self.names[i].as_str()), &c) {
                    seen = true;
                }
                assert(nv[i as int] == self.names@[i as int]@);
                i += 1;
            }
            proof {
                if nv.contains(comm@) {
                    let j = choose|j: int| 0 <= j < nv.len() && nv[j] == comm@;
                    assert(seen);
                }
                if seen {
                    let j = choose|j: int| 0 <= j < i && nv[j] == comm@;
                    assert(nv.contains(comm@));
                }
            }
            if !seen {
                let ghost before = self.names@;
                self.names.push(comm.to_owned());
                assert(names_view(self.names@) =~= names_view(before).push(comm@));
            }
        }
    }
}

/// `names` joined with commas.
pub open spec fn join_commas(names: Seq<Seq<char>>) -> Seq<char>
    decreases names.len(),
{
    if names.len() == 0 {
        Seq::empty()
    } else if names.len() == 1 {
        names[0]
    } else {
        join_commas(names.drop_last()) + ","@ + names.last()
    }
}

/// The snapshot: the bot's resident MiB, its children's resident MiB,
/// their count and their names.
pub fn snapshot(self_pages: u64, page_kb: u64, children: &ChildTally) -> (r: (u64, u64, usize, String))
    requires
        self_pages * page_kb <= u64::MAX,
    ensures
        r.0 == self_pages * page_kb / 1024,
        r.1 == children.kb / 1024,
        r.2 == children.count,
        r.3@ == join_commas(names_view(children.names@)),
{
    let mut out: Vec<char> = Vec::new();
    let mut i: usize = 0;
    let ghost nv = names_view(children.names@);
    assert(nv.take(0) =~= Seq::<Seq<char>>::empty());
    while i < children.names.len()
        invariant
            i <= nv.len(),
            nv == names_view(children.names@),
            out@ == join_commas(nv.take(i as int)),
        decreases children.names.len() - i,
    {
        assert(nv.take(i + 1).drop_last() =~= nv.take(i as int));
        assert(nv.take(i + 1).last() == children.names@[i as int]@);
        if i > 0 {
            crate::text::push_str(&mut out, ",");
        }
        crate::text::push_str(&mut out, children.names[i].as_str());
        i += 1;
        assert(out@ =~= join_commas(nv.take(i as int)));
    }
    assert(nv.take(nv.len() as int) =~= nv);
    (self_pages * page_kb / 1024, children.kb / 1024, children.count, string_from(&out))
}

} // verus!
