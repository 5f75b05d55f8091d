//! Repository-relative paths, stored as an ordered sequence of named
//! components rather than as a raw delimited string, so that appending,
//! rendering and comparing all work on well-defined atomic segments.

use vstd::prelude::*;
use vstd::string::StrSliceExecFns;

use std::path::PathBuf;

verus! {

/// One named segment of a relative path.
pub type Component = String;

/// The character sequences of a sequence of components.
pub open spec fn chars_of(cs: Seq<Component>) -> Seq<Seq<char>> {
    cs.map(|i: int, c: Component| c@)
}

/// The native path value obtained by starting from an empty
/// `std::path::PathBuf` and pushing each of the given components, in order.
pub uninterp spec fn native_rendering(cs: Seq<Seq<char>>) -> PathBuf;

/// Relies on `std::path::PathBuf::new`: allocates the empty path, which is
/// the rendering of no components.
#[verifier::external_body]
fn empty_path_buf() -> (r: PathBuf)
    ensures
        r == native_rendering(Seq::empty()),
{
    PathBuf::new()
}

/// Relies on `std::path::PathBuf::push`: pushing one more component onto the
/// rendering of a component sequence yields the rendering of that sequence
/// with the component appended.
#[verifier::external_body]
fn push_component(p: &mut PathBuf, c: &Component)
    ensures
        forall|cs: Seq<Seq<char>>|
            *old(p) == #[trigger] native_rendering(cs) ==> *final(p) == native_rendering(
                cs.push(c@),
            ),
{
    p.push(c.as_str());
}

/// The components still to be produced by a left-to-right scan of `s`, given
/// the partial segment `cur` gathered since the last separator and the
/// segments `acc` already complete: segments are cut at `/` and empty ones are
/// dropped.
pub open spec fn split_from(s: Seq<char>, cur: Seq<char>, acc: Seq<Seq<char>>) -> Seq<Seq<char>>
    decreases s.len(),
{
    if s.len() == 0 {
        if cur.len() == 0 {
            acc
        } else {
            acc.push(cur)
        }
    } else if s[0] == '/' {
        if cur.len() == 0 {
            split_from(s.drop_first(), Seq::empty(), acc)
        } else {
            split_from(s.drop_first(), Seq::empty(), acc.push(cur))
        }
    } else {
        split_from(s.drop_first(), cur.push(s[0]), acc)
    }
}

/// The components of `s`: the non-empty stretches of characters between `/`
/// separators, in order. Leading, trailing and repeated separators only cut
/// off empty stretches, which are dropped.
pub open spec fn split_components(s: Seq<char>) -> Seq<Seq<char>> {
    split_from(s, Seq::empty(), Seq::empty())
}

/// The components joined with a literal `/` between neighbours, with no
/// leading or trailing separator; an empty component sequence renders to the
/// empty sequence.
pub open spec fn joined(cs: Seq<Seq<char>>) -> Seq<char>
    decreases cs.len(),
{
    if cs.len() == 0 {
        Seq::empty()
    } else if cs.len() == 1 {
        cs[0]
    } else {
        cs[0] + seq!['/'] + joined(cs.drop_first())
    }
}

/// Appending a component extends the joined form by a separator (when
/// anything came before) and the component itself.
proof fn lemma_joined_push(cs: Seq<Seq<char>>, c: Seq<char>)
    ensures
        cs.len() == 0 ==> joined(cs.push(c)) == c,
        cs.len() > 0 ==> joined(cs.push(c)) == joined(cs) + seq!['/'] + c,
    decreases cs.len(),
{
    if cs.len() == 0 {
        assert(cs.push(c)[0] == c);
    } else if cs.len() == 1 {
        assert(cs.push(c)[0] == cs[0]);
        assert(cs.push(c).drop_first() =~= seq![c]);
        assert(joined(seq![c]) == c);
    } else {
        lemma_joined_push(cs.drop_first(), c);
        assert(cs.push(c).drop_first() =~= cs.drop_first().push(c));
        assert(cs.push(c)[0] == cs[0]);
        assert(joined(cs.push(c)) =~= joined(cs) + seq!['/'] + c);
    }
}

/// A repository-relative path: an ordered sequence of named components.
///
/// Equality and hashing are structural: they depend only on the component
/// sequence, never on how the value was built.
#[derive(Debug, Eq, Hash)]
pub struct RelativePathBuf {
    components: Vec<Component>,
}

impl View for RelativePathBuf {
    type V = Seq<Seq<char>>;

    closed spec fn view(&self) -> Seq<Seq<char>> {
        chars_of(self.components@)
    }
}

impl PartialEq for RelativePathBuf {
    fn eq(&self, other: &RelativePathBuf) -> (r: bool) {
        if self.components.len() != other.components.len() {
            return false;
        }
        let mut i: usize = 0;
        while i < self.components.len()
            invariant
                0 <= i <= self.components@.len(),
                self.components@.len() == other.components@.len(),
                forall|j: int| 0 <= j < i ==> self.components@[j]@ == other.components@[j]@,
            decreases self.components@.len() - i,
        {
            if !(self.components[i] == other.components[i]) {
                proof {
                    assert(self@[i as int] == self.components@[i as int]@);
                    assert(other@[i as int] == other.components@[i as int]@);
                }
                return false;
            }
            i += 1;
        }
        proof {
            assert forall|j: int| 0 <= j < self@.len() implies self@[j] == other@[j] by {}
            assert(self@ =~= other@);
        }
        true
    }
}

impl vstd::std_specs::cmp::PartialEqSpecImpl for RelativePathBuf {
    open spec fn obeys_eq_spec() -> bool {
        true
    }

    open spec fn eq_spec(&self, other: &RelativePathBuf) -> bool {
        self@ == other@
    }
}

impl RelativePathBuf {
    /// Bulk construction from an ordered sequence of components. The order is
    /// preserved and nothing is filtered: the caller is responsible for
    /// supplying non-empty components here.
    pub fn from_components(components: Vec<Component>) -> (r: RelativePathBuf)
        ensures
            r@ == chars_of(components@),
    {
        RelativePathBuf { components }
    }

    /// Appends one component at the end, preserving the existing order;
    /// consumes the value and returns the longer one.
    pub fn join(self, c: Component) -> (r: RelativePathBuf)
        ensures
            r@ == self@.push(c@),
    {
        let ghost orig = self@;
        let mut this = self;
        this.components.push(c);
        proof {
            assert(this@ =~= orig.push(c@));
        }
        this
    }

    /// Splits `s` on `/`, drops every empty segment, and keeps the order of
    /// the rest. Total: any input, the empty string included, yields a valid
    /// (possibly empty) value.
    pub fn parse(s: &str) -> (r: RelativePathBuf)
        ensures
            r@ == split_components(s@),
    {
        let n = s.unicode_len();
        let mut components: Vec<Component> = Vec::new();
        let mut start: usize = 0;
        let mut i: usize = 0;
        proof {
            assert(s@.skip(0) =~= s@);
            assert(s@.subrange(0, 0) =~= Seq::<char>::empty());
            assert(chars_of(components@) =~= Seq::<Seq<char>>::empty());
        }
        while i < n
            invariant
                0 <= start <= i <= n,
                n == s@.len(),
                forall|j: int| start <= j < i ==> s@[j] != '/',
                split_from(
                    s@.skip(i as int),
                    s@.subrange(start as int, i as int),
                    chars_of(components@),
                ) == split_components(s@),
            decreases n - i,
        {
            let ghost rest = s@.skip(i as int);
            let ghost cur = s@.subrange(start as int, i as int);
            let ghost acc = chars_of(components@);
            proof {
                assert(rest[0] == s@[i as int]);
                assert(rest.drop_first() =~= s@.skip(i as int + 1));
            }
            let c = s.get_char(i);
            if c == '/' {
                if start < i {
                    let seg = s.substring_char(start, i);
                    components.push(seg.to_owned());
                    proof {
                        assert(chars_of(components@) =~= acc.push(cur));
                        assert(s@.subrange(i as int + 1, i as int + 1) =~= Seq::<char>::empty());
                    }
                } else {
                    proof {
                        assert(cur =~= Seq::<char>::empty());
                        assert(s@.subrange(i as int + 1, i as int + 1) =~= Seq::<char>::empty());
                    }
                }
                start = i + 1;
            } else {
                proof {
                    assert(s@.subrange(start as int, i as int + 1) =~= cur.push(s@[i as int]));
                }
            }
            i += 1;
        }
        proof {
            assert(s@.skip(n as int) =~= Seq::<char>::empty());
        }
        if start < n {
            let seg = s.substring_char(start, n);
            components.push(seg.to_owned());
            proof {
                assert(chars_of(components@) =~= split_components(s@));
            }
        } else {
            proof {
                assert(s@.subrange(start as int, n as int) =~= Seq::<char>::empty());
            }
        }
        RelativePathBuf { components }
    }

    /// Renders the components joined with a literal `/` whatever the host
    /// convention, for deterministic, platform-independent output such as
    /// version-control tooling expects.
    pub fn as_git_path(&self) -> (r: String)
        ensures
            r@ == joined(self@),
    {
        let mut out = String::new();
        let mut i: usize = 0;
        proof {
            assert(self@.take(0) =~= Seq::<Seq<char>>::empty());
        }
        while i < self.components.len()
            invariant
                0 <= i <= self.components@.len(),
                self@.len() == self.components@.len(),
                out@ == joined(self@.take(i as int)),
            decreases self.components@.len() - i,
        {
            let ghost before = self@.take(i as int);
            if i > 0 {
                out.append("/");
            }
            out.append(self.components[i].as_str());
            proof {
                reveal_strlit("/");
                lemma_joined_push(before, self@[i as int]);
                assert(before.push(self@[i as int]) =~= self@.take(i as int + 1));
                assert(out@ =~= joined(self@.take(i as int + 1)));
            }
            i += 1;
        }
        proof {
            assert(self@.take(self.components@.len() as int) =~= self@);
        }
        out
    }

    /// Renders the components into a fresh native path value, joining them
    /// with the host environment's own convention: the result of pushing each
    /// component, in order, onto an empty native path.
    pub fn as_path_buf(&self) -> (r: PathBuf)
        ensures
            r == native_rendering(self@),
    {
        let mut p = empty_path_buf();
        let mut i: usize = 0;
        proof {
            assert(self@.take(0) =~= Seq::<Seq<char>>::empty());
        }
        while i < self.components.len()
            invariant
                0 <= i <= self.components@.len(),
                self@.len() == self.components@.len(),
                p == native_rendering(self@.take(i as int)),
            decreases self.components@.len() - i,
        {
            let ghost before = self@.take(i as int);
            push_component(&mut p, &self.components[i]);
            proof {
                assert(before.push(self@[i as int]) =~= self@.take(i as int + 1));
            }
            i += 1;
        }
        proof {
            assert(self@.take(self.components@.len() as int) =~= self@);
        }
        p
    }

    /// The component sequence, in order.
    pub fn components(&self) -> (r: &Vec<Component>)
        ensures
            chars_of(r@) == self@,
    {
        &self.components
    }
}

/// Well-formed components: each one non-empty and free of the separator.
pub open spec fn wf_components(cs: Seq<Seq<char>>) -> bool {
    &&& forall|i: int| 0 <= i < cs.len() ==> #[trigger] cs[i].len() > 0
    &&& forall|i: int, j: int| 0 <= i < cs.len() && 0 <= j < cs[i].len() ==> #[trigger] cs[i][j]
        != '/'
}

/// A scan only ever completes non-empty, separator-free segments.
proof fn lemma_split_from_wf(s: Seq<char>, cur: Seq<char>, acc: Seq<Seq<char>>)
    requires
        forall|j: int| 0 <= j < cur.len() ==> cur[j] != '/',
        wf_components(acc),
    ensures
        wf_components(split_from(s, cur, acc)),
    decreases s.len(),
{
    if s.len() == 0 {
        if cur.len() > 0 {
            assert(wf_components(acc.push(cur)));
        }
    } else if s[0] == '/' {
        if cur.len() == 0 {
            lemma_split_from_wf(s.drop_first(), Seq::empty(), acc);
        } else {
            assert(wf_components(acc.push(cur)));
            lemma_split_from_wf(s.drop_first(), Seq::empty(), acc.push(cur));
        }
    } else {
        lemma_split_from_wf(s.drop_first(), cur.push(s[0]), acc);
    }
}

/// Whatever the input, the components of a parse are well formed: non-empty
/// and free of `/`.
pub proof fn lemma_split_components_wf(s: Seq<char>)
    ensures
        wf_components(split_components(s)),
{
    lemma_split_from_wf(s, Seq::empty(), Seq::empty());
}

/// A scan that enters a separator-free stretch simply moves it into the
/// partial segment.
proof fn lemma_split_from_segment(seg: Seq<char>, rest: Seq<char>, cur: Seq<char>, acc: Seq<Seq<char>>)
    requires
        forall|j: int| 0 <= j < seg.len() ==> seg[j] != '/',
    ensures
        split_from(seg + rest, cur, acc) == split_from(rest, cur + seg, acc),
    decreases seg.len(),
{
    if seg.len() == 0 {
        assert(seg + rest =~= rest);
        assert(cur + seg =~= cur);
    } else {
        assert((seg + rest)[0] == seg[0]);
        assert((seg + rest).drop_first() =~= seg.drop_first() + rest);
        lemma_split_from_segment(seg.drop_first(), rest, cur.push(seg[0]), acc);
        assert(cur.push(seg[0]) + seg.drop_first() =~= cur + seg);
    }
}

/// Scanning the joined form of well-formed components recovers them, behind
/// whatever was already accumulated.
proof fn lemma_split_joined(cs: Seq<Seq<char>>, acc: Seq<Seq<char>>)
    requires
        wf_components(cs),
    ensures
        split_from(joined(cs), Seq::empty(), acc) == acc + cs,
    decreases cs.len(),
{
    if cs.len() == 0 {
        assert(acc + cs =~= acc);
    } else if cs.len() == 1 {
        assert(cs[0] =~= cs[0] + Seq::<char>::empty());
        lemma_split_from_segment(cs[0], Seq::empty(), Seq::empty(), acc);
        assert(Seq::<char>::empty() + cs[0] =~= cs[0]);
        assert(acc.push(cs[0]) =~= acc + cs);
    } else {
        let cs2 = cs.drop_first();
        let tail = seq!['/'] + joined(cs2);
        assert(joined(cs) =~= cs[0] + tail);
        lemma_split_from_segment(cs[0], tail, Seq::empty(), acc);
        assert(Seq::<char>::empty() + cs[0] =~= cs[0]);
        assert(tail[0] == '/');
        assert(tail.drop_first() =~= joined(cs2));
        assert forall|i: int| 0 <= i < cs2.len() implies #[trigger] cs2[i].len() > 0 by {
            assert(cs2[i] == cs[i + 1]);
        }
        assert forall|i: int, j: int| 0 <= i < cs2.len() && 0 <= j < cs2[i].len() implies #[trigger] cs2[i][j] != '/' by {
            assert(cs2[i] == cs[i + 1]);
        }
        assert(wf_components(cs2));
        lemma_split_joined(cs2, acc.push(cs[0]));
        assert(acc.push(cs[0]) + cs2 =~= acc + cs);
    }
}

/// Round trip: rendering a component sequence portably and parsing the text
/// back yields the very same sequence, provided every component is non-empty
/// and free of `/`.
pub proof fn lemma_portable_round_trip(cs: Seq<Seq<char>>)
    requires
        wf_components(cs),
    ensures
        split_components(joined(cs)) == cs,
{
    lemma_split_joined(cs, Seq::empty());
    assert(Seq::<Seq<char>>::empty() + cs =~= cs);
}

/// Parsing is idempotent with respect to extraneous separators: rendering a
/// parsed value portably and parsing that text again changes nothing.
pub proof fn lemma_parse_idempotent(s: Seq<char>)
    ensures
        split_components(joined(split_components(s))) == split_components(s),
{
    lemma_split_components_wf(s);
    lemma_portable_round_trip(split_components(s));
}

/// Equality of relative paths is structural: it holds exactly when the
/// component sequences agree, whatever way each value was built.
pub proof fn lemma_eq_structural(a: &RelativePathBuf, b: &RelativePathBuf)
    ensures
        vstd::std_specs::cmp::PartialEqSpec::eq_spec(a, b) <==> a@ == b@,
{
}

impl From<&str> for RelativePathBuf {
    /// Parses `s` as [`RelativePathBuf::parse`] does.
    ///
    /// No contract can be attached here: the parsed value cannot be written
    /// down at the specification level, since the component strings are
    /// abstract. Callers who need the contract call `parse` directly.
    fn from(s: &str) -> RelativePathBuf {
        RelativePathBuf::parse(s)
    }
}

impl vstd::std_specs::convert::FromSpecImpl<&str> for RelativePathBuf {
    open spec fn obeys_from_spec() -> bool {
        false
    }

    open spec fn from_spec(s: &str) -> RelativePathBuf {
        arbitrary()
    }
}

} // verus!
