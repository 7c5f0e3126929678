use vstd::prelude::*;

verus! {

/// Lexicographic order on character sequences, by code point: the order in
/// which `String`'s `Ord` puts strings.
pub open spec fn lex_lt(a: Seq<char>, b: Seq<char>) -> bool
    decreases a.len(),
{
    if a.len() == 0 {
        b.len() > 0
    } else if b.len() == 0 {
        false
    } else if a[0] != b[0] {
        a[0] < b[0]
    } else {
        lex_lt(a.drop_first(), b.drop_first())
    }
}

/// Strictly increasing: sorted, each tag once.
pub open spec fn strictly_sorted(s: Seq<Seq<char>>) -> bool {
    forall|i: int, j: int| 0 <= i < j < s.len() ==> lex_lt(#[trigger] s[i], #[trigger] s[j])
}

/// The characters of each string.
pub open spec fn views_of(v: Seq<String>) -> Seq<Seq<char>> {
    v.map_values(|s: String| s@)
}

pub proof fn lemma_lex_irreflexive(a: Seq<char>)
    ensures
        !lex_lt(a, a),
    decreases a.len(),
{
    if a.len() > 0 {
        lemma_lex_irreflexive(a.drop_first());
    }
}

pub proof fn lemma_lex_asymmetric(a: Seq<char>, b: Seq<char>)
    ensures
        !(lex_lt(a, b) && lex_lt(b, a)),
    decreases a.len(),
{
    if a.len() > 0 && b.len() > 0 && a[0] == b[0] {
        lemma_lex_asymmetric(a.drop_first(), b.drop_first());
    }
}

pub proof fn lemma_lex_transitive(a: Seq<char>, b: Seq<char>, c: Seq<char>)
    requires
        lex_lt(a, b),
        lex_lt(b, c),
    ensures
        lex_lt(a, c),
    decreases a.len(),
{
    if a.len() > 0 && b.len() > 0 && c.len() > 0 && a[0] == b[0] && b[0] == c[0] {
        lemma_lex_transitive(a.drop_first(), b.drop_first(), c.drop_first());
    }
}

pub proof fn lemma_lex_total(a: Seq<char>, b: Seq<char>)
    requires
        a != b,
    ensures
        lex_lt(a, b) || lex_lt(b, a),
    decreases a.len(),
{
    if a.len() > 0 && b.len() > 0 && a[0] == b[0] {
        if a.drop_first() == b.drop_first() {
            assert(a =~= seq![a[0]] + a.drop_first());
            assert(b =~= seq![b[0]] + b.drop_first());
        }
        lemma_lex_total(a.drop_first(), b.drop_first());
    } else if a.len() > 0 && b.len() > 0 {
    } else if a.len() == 0 && b.len() == 0 {
        assert(a =~= b);
    }
}

/// Two strictly sorted sequences that hold the same elements are the same sequence.
pub proof fn lemma_sorted_same_set_equal(a: Seq<Seq<char>>, b: Seq<Seq<char>>)
    requires
        strictly_sorted(a),
        strictly_sorted(b),
        a.to_set() == b.to_set(),
    ensures
        a == b,
    decreases a.len(),
{
    if a.len() == 0 {
        if b.len() > 0 {
            assert(b.to_set().contains(b[0]));
        }
        assert(a =~= b);
    } else {
        assert(a.to_set().contains(a[0]));
        assert(b.len() > 0);
        assert(b.to_set().contains(b[0]));
        let j = choose|j: int| 0 <= j < b.len() && b[j] == a[0];
        let k = choose|k: int| 0 <= k < a.len() && a[k] == b[0];
        if a[0] != b[0] {
            assert(j > 0 && k > 0);
            assert(lex_lt(b[0], b[j]));
            assert(lex_lt(a[0], a[k]));
            lemma_lex_asymmetric(a[0], b[0]);
        }
        let a1 = a.drop_first();
        let b1 = b.drop_first();
        assert forall|x: Seq<char>| a1.to_set().contains(x) implies b1.to_set().contains(x) by {
            let i = choose|i: int| 0 <= i < a1.len() && a1[i] == x;
            assert(a[i + 1] == x);
            assert(lex_lt(a[0], a[i + 1]));
            lemma_lex_irreflexive(x);
            assert(a.to_set().contains(x));
            let m = choose|m: int| 0 <= m < b.len() && b[m] == x;
            assert(m != 0);
            assert(b1[m - 1] == x);
        }
        assert forall|x: Seq<char>| b1.to_set().contains(x) implies a1.to_set().contains(x) by {
            let i = choose|i: int| 0 <= i < b1.len() && b1[i] == x;
            assert(b[i + 1] == x);
            assert(lex_lt(b[0], b[i + 1]));
            lemma_lex_irreflexive(x);
            assert(b.to_set().contains(x));
            let m = choose|m: int| 0 <= m < a.len() && a[m] == x;
            assert(m != 0);
            assert(a1[m - 1] == x);
        }
        assert(a1.to_set() =~= b1.to_set());
        lemma_sorted_same_set_equal(a1, b1);
        assert(a =~= seq![a[0]] + a1);
        assert(b =~= seq![b[0]] + b1);
    }
}

/// Relies on `format!`: the characters of `a` followed by those of `b`.
#[verifier::external_body]
pub(crate) fn concat_str(a: &str, b: &str) -> (r: String)
    ensures
        r@ == a@ + b@,
{
    format!("{}{}", a, b)
}

/// Whether `a` comes before `b` in the order of `lex_lt`.
pub fn str_lt(a: &str, b: &str) -> (r: bool)
    ensures
        r == lex_lt(a@, b@),
{
    let la = a.unicode_len();
    let lb = b.unicode_len();
    let mut i: usize = 0;
    assert(a@.skip(0) =~= a@ && b@.skip(0) =~= b@);
    while i < la && i < lb
        invariant
            la == a@.len(),
            lb == b@.len(),
            i <= la,
            i <= lb,
            lex_lt(a@, b@) == lex_lt(a@.skip(i as int), b@.skip(i as int)),
        decreases la - i,
    {
        let ca = a.get_char(i);
        let cb = b.get_char(i);
        proof {
            let sa = a@.skip(i as int);
            let sb = b@.skip(i as int);
            assert(sa[0] == ca && sb[0] == cb);
            assert(sa.drop_first() =~= a@.skip(i + 1));
            assert(sb.drop_first() =~= b@.skip(i + 1));
        }
        if ca != cb {
            return ca < cb;
        }
        i = i + 1;
    }
    i < lb
}

/// A set of tags, kept as a strictly sorted list so that two sets with the
/// same tags are equal field by field, and hash alike, whatever order the
/// tags were given in.
#[derive(Clone, Debug, Default, Hash, PartialEq, Eq)]
pub struct TagSet {
    tags: Vec<String>,
}

impl View for TagSet {
    type V = Seq<Seq<char>>;

    closed spec fn view(&self) -> Seq<Seq<char>> {
        views_of(self.tags@)
    }
}

impl TagSet {
    /// The set of tags that the list holds.
    pub open spec fn tag_set(&self) -> Set<Seq<char>> {
        self@.to_set()
    }

    pub closed spec fn wf(&self) -> bool {
        strictly_sorted(self@)
    }

    /// No tags.
    pub fn new() -> (r: TagSet)
        ensures
            r.wf(),
            r@ == Seq::<Seq<char>>::empty(),
    {
        let r = TagSet { tags: Vec::new() };
        assert(r@ =~= Seq::<Seq<char>>::empty());
        r
    }

    pub fn len(&self) -> (r: usize)
        ensures
            r == self@.len(),
    {
        self.tags.len()
    }

    /// The tags, in increasing order.
    pub fn as_vec(&self) -> (r: &Vec<String>)
        ensures
            views_of(r@) == self@,
    {
        &self.tags
    }

    /// A copy of the set.
    pub fn copy(&self) -> (r: TagSet)
        ensures
            r@ == self@,
            r.wf() == self.wf(),
    {
        TagSet { tags: self.to_vec() }
    }

    /// The tags, in increasing order, as a new list.
    pub fn to_vec(&self) -> (r: Vec<String>)
        ensures
            views_of(r@) == self@,
    {
        let mut out: Vec<String> = Vec::new();
        let mut i: usize = 0;
        while i < self.tags.len()
            invariant
                i <= self.tags@.len(),
                views_of(out@) == views_of(self.tags@.subrange(0, i as int)),
            decreases self.tags@.len() - i,
        {
            let t = self.tags[i].clone();
            let ghost before = out@;
            out.push(t);
            proof {
                assert(views_of(self.tags@.subrange(0, i + 1)) =~= views_of(
                    self.tags@.subrange(0, i as int),
                ).push(self.tags@[i as int]@));
                assert(views_of(out@) =~= views_of(before).push(t@));
            }
            i = i + 1;
        }
        assert(self.tags@.subrange(0, self.tags@.len() as int) =~= self.tags@);
        out
    }

    /// Adds `tag`; a tag that is already there is kept once.
    pub fn insert(&mut self, tag: String)
        requires
            old(self).wf(),
        ensures
            final(self).wf(),
            final(self).tag_set() == old(self).tag_set().insert(tag@),
    {
        let n = self.tags.len();
        let mut k: usize = 0;
        while k < n && str_lt(self.tags[k].as_str(), tag.as_str())
            invariant
                n == self.tags@.len(),
                k <= n,
                self.wf(),
                forall|i: int| 0 <= i < k ==> lex_lt(#[trigger] self@[i], tag@),
            decreases n - k,
        {
            k = k + 1;
        }
        let ghost before = self@;
        if k < n && self.tags[k] == tag {
            assert(before.to_set().contains(tag@)) by {
                assert(before[k as int] == tag@);
            }
            assert(before.to_set().insert(tag@) =~= before.to_set());
            return;
        }
        proof {
            if k < n {
                assert(!lex_lt(before[k as int], tag@));
                assert(before[k as int] != tag@);
                lemma_lex_total(before[k as int], tag@);
                assert forall|j: int| k <= j < n implies lex_lt(tag@, #[trigger] before[j]) by {
                    if j > k {
                        lemma_lex_transitive(tag@, before[k as int], before[j]);
                    }
                }
            }
        }
        let ghost tv = tag@;
        self.tags.insert(k, tag);
        proof {
            assert(self@ =~= before.insert(k as int, tv));
            let s = self@;
            assert forall|i: int, j: int| 0 <= i < j < s.len() implies lex_lt(
                #[trigger] s[i],
                #[trigger] s[j],
            ) by {
                if j < k {
                } else if j == k {
                } else if i < k {
                    lemma_lex_transitive(s[i], tv, s[j]);
                } else if i == k {
                } else {
                }
            }
            assert(s.to_set() =~= before.to_set().insert(tv)) by {
                assert forall|x: Seq<char>| s.to_set().contains(x) implies before.to_set().insert(
                    tv,
                ).contains(x) by {
                    let m = choose|m: int| 0 <= m < s.len() && s[m] == x;
                    if m < k {
                        assert(before[m] == x);
                    } else if m > k {
                        assert(before[m - 1] == x);
                    }
                }
                assert forall|x: Seq<char>| before.to_set().insert(tv).contains(x) implies s.to_set().contains(
                    x,
                ) by {
                    if x == tv {
                        assert(s[k as int] == x);
                    } else {
                        let m = choose|m: int| 0 <= m < before.len() && before[m] == x;
                        if m < k {
                            assert(s[m] == x);
                        } else {
                            assert(s[m + 1] == x);
                        }
                    }
                }
            }
        }
    }

    /// The set of the given tags, each kept once.
    pub fn from_vec(tags: Vec<String>) -> (r: TagSet)
        ensures
            r.wf(),
            r.tag_set() == views_of(tags@).to_set(),
    {
        let mut r = TagSet::new();
        let mut i: usize = 0;
        let n = tags.len();
        while i < n
            invariant
                n == tags@.len(),
                i <= n,
                r.wf(),
                r.tag_set() == views_of(tags@.subrange(0, i as int)).to_set(),
            decreases n - i,
        {
            let t = tags[i].clone();
            r.insert(t);
            proof {
                assert(views_of(tags@.subrange(0, i + 1)) =~= views_of(tags@.subrange(0, i as int)).push(tags@[i as int]@));
                views_of(tags@.subrange(0, i as int)).lemma_push_to_set_commute(tags@[i as int]@);
            }
            i = i + 1;
        }
        assert(tags@.subrange(0, n as int) =~= tags@);
        r
    }
}

/// Tag lists that hold the same tags, in whatever order and with whatever
/// repetitions, give the same tag set, element for element.
pub proof fn lemma_same_tags_same_set(a: TagSet, b: TagSet)
    requires
        a.wf(),
        b.wf(),
        a.tag_set() == b.tag_set(),
    ensures
        a@ == b@,
{
    lemma_sorted_same_set_equal(a@, b@);
}

} // verus!
