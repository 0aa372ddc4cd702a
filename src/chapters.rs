//! The chapter store: a document split on the `****` delimiter, looked up by a
//! 1-based chapter number.
use vstd::prelude::*;
use crate::reply::{text_view, Reply, ReplyView, STATUS_OK};
use crate::text::{chars_of, push_char};

verus! {

/// The delimiter between two chapters.
pub open spec fn delimiter() -> Seq<char> {
    seq!['*', '*', '*', '*']
}

/// `p` put in front of the first piece of `xs`.
pub open spec fn prepend(p: Seq<char>, xs: Seq<Seq<char>>) -> Seq<Seq<char>>
    recommends
        xs.len() > 0,
{
    xs.update(0, p + xs[0])
}

/// The pieces of `s` between occurrences of the delimiter, each occurrence
/// taken as early as possible (a leftmost, non-overlapping split). There is
/// always at least one piece.
pub open spec fn chapters_of(s: Seq<char>) -> Seq<Seq<char>>
    decreases s.len(),
{
    if s.len() == 0 {
        seq![Seq::<char>::empty()]
    } else if s.len() >= 4 && s.subrange(0, 4) == delimiter() {
        seq![Seq::<char>::empty()] + chapters_of(s.subrange(4, s.len() as int))
    } else {
        prepend(seq![s[0]], chapters_of(s.subrange(1, s.len() as int)))
    }
}

/// The views of a vector of strings.
pub open spec fn views_of(v: Seq<String>) -> Seq<Seq<char>> {
    v.map_values(|c: String| c@)
}

proof fn lemma_chapters_nonempty(s: Seq<char>)
    ensures
        chapters_of(s).len() >= 1,
    decreases s.len(),
{
    if s.len() > 0 {
        if s.len() >= 4 && s.subrange(0, 4) == delimiter() {
            lemma_chapters_nonempty(s.subrange(4, s.len() as int));
        } else {
            lemma_chapters_nonempty(s.subrange(1, s.len() as int));
        }
    }
}

/// Splits `text` into chapters on every `****`, keeping each piece verbatim.
pub fn extract_enchiridion(text: &str) -> (r: Vec<String>)
    ensures
        views_of(r@) == chapters_of(text@),
{
    let s = chars_of(text);
    let n = s.len();
    let mut done: Vec<String> = Vec::new();
    let mut cur = String::new();
    let mut i: usize = 0;
    proof {
        lemma_chapters_nonempty(s@);
        assert(s@.subrange(0, n as int) =~= s@);
        let whole = chapters_of(s@);
        assert(Seq::<char>::empty() + whole[0] =~= whole[0]);
        assert(views_of(done@) =~= Seq::<Seq<char>>::empty());
        assert(prepend(cur@, whole) =~= whole);
        assert(Seq::<Seq<char>>::empty() + whole =~= whole);
    }
    while i < n
        invariant
            n == s@.len(),
            s@ == text@,
            i <= n,
            chapters_of(s@) == views_of(done@) + prepend(
                cur@,
                chapters_of(s@.subrange(i as int, n as int)),
            ),
        decreases n - i,
    {
        let ghost rest = s@.subrange(i as int, n as int);
        proof {
            lemma_chapters_nonempty(rest);
        }
        if n - i >= 4 && s[i] == '*' && s[i + 1] == '*' && s[i + 2] == '*' && s[i + 3] == '*' {
            assert(rest.subrange(0, 4) =~= delimiter());
            assert(rest.subrange(4, rest.len() as int) =~= s@.subrange(i + 4, n as int));
            let ghost tail = chapters_of(s@.subrange(i + 4, n as int));
            proof {
                lemma_chapters_nonempty(s@.subrange(i + 4, n as int));
            }
            assert(prepend(cur@, chapters_of(rest)) =~= seq![cur@] + prepend(
                Seq::<char>::empty(),
                tail,
            )) by {
                assert(Seq::<char>::empty() + tail[0] =~= tail[0]);
                assert(cur@ + Seq::<char>::empty() =~= cur@);
            }
            let ghost old_done = done@;
            let ghost old_cur = cur@;
            done.push(cur);
            cur = String::new();
            assert(views_of(done@) =~= views_of(old_done) + seq![old_cur]);
            i = i + 4;
        } else {
            assert(rest.subrange(1, rest.len() as int) =~= s@.subrange(i + 1, n as int));
            let ghost tail = chapters_of(s@.subrange(i + 1, n as int));
            proof {
                lemma_chapters_nonempty(s@.subrange(i + 1, n as int));
            }
            if n - i >= 4 {
                assert(rest.subrange(0, 4) != delimiter()) by {
                    if rest.subrange(0, 4) == delimiter() {
                        assert(rest.subrange(0, 4)[0] == '*');
                        assert(rest.subrange(0, 4)[1] == '*');
                        assert(rest.subrange(0, 4)[2] == '*');
                        assert(rest.subrange(0, 4)[3] == '*');
                    }
                }
            }
            let ghost old_cur = cur@;
            push_char(&mut cur, s[i]);
            assert(prepend(old_cur, prepend(seq![s@[i as int]], tail)) =~= prepend(cur@, tail)) by {
                assert(old_cur + (seq![s@[i as int]] + tail[0]) =~= cur@ + tail[0]);
            }
            i = i + 1;
        }
    }
    assert(s@.subrange(n as int, n as int) =~= Seq::<char>::empty());
    let ghost before = views_of(done@);
    assert(prepend(cur@, seq![Seq::<char>::empty()]) =~= seq![cur@]) by {
        assert(cur@ + Seq::<char>::empty() =~= cur@);
    }
    done.push(cur);
    assert(views_of(done@) =~= before + seq![cur@]);
    done
}

/// The reply to a request for chapter `n` of `chapters`: its text, or the
/// not-found page where there is no such chapter.
pub open spec fn chapter_view(chapters: Seq<Seq<char>>, n: int) -> ReplyView {
    if 1 <= n <= chapters.len() {
        text_view(STATUS_OK, chapters[n - 1])
    } else {
        ReplyView::NotFoundPage
    }
}

/// A document split into chapters, numbered from 1.
pub struct Chapters {
    items: Vec<String>,
}

impl View for Chapters {
    type V = Seq<Seq<char>>;

    closed spec fn view(&self) -> Seq<Seq<char>> {
        views_of(self.items@)
    }
}

impl Chapters {
    /// The chapters of `text`, split on every `****`.
    pub fn from_text(text: &str) -> (r: Chapters)
        ensures
            r@ == chapters_of(text@),
    {
        Chapters { items: extract_enchiridion(text) }
    }

    /// The number of chapters.
    pub fn len(&self) -> (r: usize)
        ensures
            r == self@.len(),
    {
        self.items.len()
    }

    /// Chapter `n`, counted from 1; `None` for 0 and past the last chapter.
    pub fn get(&self, n: usize) -> (r: Option<&String>)
        ensures
            r is Some <==> 1 <= n <= self@.len(),
            r is Some ==> r->0@ == self@[n - 1],
    {
        if n >= 1 && n <= self.items.len() {
            Some(&self.items[n - 1])
        } else {
            None
        }
    }

    /// The reply to a request for chapter `n`.
    pub fn chapter_reply(&self, n: usize) -> (r: Reply)
        ensures
            r@ == chapter_view(self@, n as int),
    {
        match self.get(n) {
            Some(c) => Reply::Text { status: STATUS_OK, body: c.clone() },
            None => Reply::NotFoundPage,
        }
    }
}

} // verus!
