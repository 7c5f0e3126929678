use std::marker::PhantomData;
use vstd::prelude::*;

use crate::tags::{TagSet, views_of};
use crate::MetricType::{self, Impl, MakeInstrument};

verus! {

/// The characters of each string slice.
pub open spec fn str_views(v: Seq<&str>) -> Seq<Seq<char>> {
    v.map_values(|s: &str| s@)
}

/// A metric's name tied to its kind, with no tags yet.
pub struct MetricName<'a, T: Impl>(&'a str, PhantomData<T>);

impl<'a, T: Impl> MetricName<'a, T> {
    pub closed spec fn spec_name(&self) -> Seq<char> {
        self.0@
    }

    pub fn new(name: &'a str) -> (r: Self)
        ensures
            r.spec_name() == name@,
    {
        MetricName(name, PhantomData)
    }

    pub fn get_name(&self) -> (r: &'a str)
        ensures
            r@ == self.spec_name(),
    {
        self.0
    }
}

impl<'a, T: Impl> Clone for MetricName<'a, T> {
    fn clone(&self) -> (r: Self)
        ensures
            r.spec_name() == self.spec_name(),
    {
        MetricName(self.0, PhantomData)
    }
}

impl<'a> MetricName<'a, MetricType::Count> {
    pub fn count(name: &'a str) -> (r: Self)
        ensures
            r.spec_name() == name@,
    {
        MetricName(name, PhantomData)
    }
}

impl<'a> MetricName<'a, MetricType::Gauge> {
    pub fn gauge(name: &'a str) -> (r: Self)
        ensures
            r.spec_name() == name@,
    {
        MetricName(name, PhantomData)
    }
}

impl<'a> MetricName<'a, MetricType::TimingCount> {
    pub fn timing_count(name: &'a str) -> (r: Self)
        ensures
            r.spec_name() == name@,
    {
        MetricName(name, PhantomData)
    }
}

/// A metric: name, kind and tags. Registering it yields a handle of its kind.
pub struct Metric<T: Impl> {
    /// Name of the metric, called stat in dogstatsd
    metric_name: String,
    /// What kind of metric is it?
    metric_type: PhantomData<T>,
    /// Tags for the metric
    metric_tags: TagSet,
}

impl<T: Impl> Metric<T> {
    pub closed spec fn spec_name(&self) -> Seq<char> {
        self.metric_name@
    }

    pub closed spec fn spec_tags(&self) -> TagSet {
        self.metric_tags
    }

    pub open spec fn wf(&self) -> bool {
        self.spec_tags().wf()
    }

    /// The metric called `metric_name`, with no tags.
    pub fn new(metric_name: MetricName<'_, T>) -> (r: Self)
        ensures
            r.wf(),
            r.spec_name() == metric_name.spec_name(),
            r.spec_tags()@ == Seq::<Seq<char>>::empty(),
    {
        Metric {
            metric_name: metric_name.get_name().to_owned(),
            metric_type: PhantomData,
            metric_tags: TagSet::new(),
        }
    }

    /// The same metric with `metric_tags` for its tags.
    pub fn with_set_tags(self, metric_tags: TagSet) -> (r: Self)
        ensures
            r.spec_name() == self.spec_name(),
            r.spec_tags() == metric_tags,
    {
        Metric { metric_tags, ..self }
    }

    /// The same metric, tagged with each of `metric_tags` once.
    pub fn with_vec_tags(self, metric_tags: Vec<String>) -> (r: Self)
        ensures
            r.wf(),
            r.spec_name() == self.spec_name(),
            r.spec_tags().tag_set() == views_of(metric_tags@).to_set(),
    {
        self.with_set_tags(TagSet::from_vec(metric_tags))
    }

    /// The same metric, tagged with each of `metric_tags` once.
    pub fn with_tags(self, metric_tags: &[&str]) -> (r: Self)
        ensures
            r.wf(),
            r.spec_name() == self.spec_name(),
            r.spec_tags().tag_set() == str_views(metric_tags@).to_set(),
    {
        let mut owned: Vec<String> = Vec::new();
        let mut i: usize = 0;
        while i < metric_tags.len()
            invariant
                i <= metric_tags@.len(),
                views_of(owned@) == str_views(metric_tags@.subrange(0, i as int)),
            decreases metric_tags@.len() - i,
        {
            let t = metric_tags[i].to_owned();
            let ghost before = owned@;
            owned.push(t);
            proof {
                assert(str_views(metric_tags@.subrange(0, i + 1)) =~= str_views(
                    metric_tags@.subrange(0, i as int),
                ).push(metric_tags@[i as int]@));
                assert(views_of(owned@) =~= views_of(before).push(t@));
            }
            i = i + 1;
        }
        assert(metric_tags@.subrange(0, metric_tags@.len() as int) =~= metric_tags@);
        self.with_vec_tags(owned)
    }

    /// The same metric, tagged with each of `metric_tags` once.
    pub fn with_array_tags<const N: usize>(self, metric_tags: [&str; N]) -> (r: Self)
        ensures
            r.wf(),
            r.spec_name() == self.spec_name(),
            r.spec_tags().tag_set() == str_views(metric_tags@).to_set(),
    {
        self.with_tags(metric_tags.as_slice())
    }

    pub fn get_name(&self) -> (r: &str)
        ensures
            r@ == self.spec_name(),
    {
        self.metric_name.as_str()
    }

    pub fn get_tags(&self) -> (r: &TagSet)
        ensures
            *r == self.spec_tags(),
    {
        &self.metric_tags
    }

    /// The identity under which the metric is stored.
    pub fn key(&self) -> (r: MetricKey)
        ensures
            r.spec_name() == self.spec_name(),
            r.spec_tags()@ == self.spec_tags()@,
            r.spec_tags().wf() == self.spec_tags().wf(),
    {
        MetricKey::new(self.metric_name.as_str(), self.metric_tags.copy())
    }
}

impl<T: Impl> Clone for Metric<T> {
    fn clone(&self) -> (r: Self)
        ensures
            r.spec_name() == self.spec_name(),
            r.spec_tags()@ == self.spec_tags()@,
            r.wf() == self.wf(),
    {
        Metric {
            metric_name: self.metric_name.clone(),
            metric_type: PhantomData,
            metric_tags: self.metric_tags.copy(),
        }
    }
}

impl<T: Impl + MakeInstrument> Metric<T> {
    /// A fresh handle of this metric's kind.
    pub fn make_instrument(&self) -> (r: T::InstrumentType)
        ensures
            T::spec_erase(r).kind() == T::spec_kind(),
    {
        T::make_instrument()
    }
}

impl Metric<MetricType::Count> {
    pub fn new_count(metric_name: MetricName<'_, MetricType::Count>) -> (r: Self)
        ensures
            r.wf(),
            r.spec_name() == metric_name.spec_name(),
            r.spec_tags()@ == Seq::<Seq<char>>::empty(),
    {
        Metric::new(metric_name)
    }
}

impl Metric<MetricType::Gauge> {
    pub fn new_gauge(metric_name: MetricName<'_, MetricType::Gauge>) -> (r: Self)
        ensures
            r.wf(),
            r.spec_name() == metric_name.spec_name(),
            r.spec_tags()@ == Seq::<Seq<char>>::empty(),
    {
        Metric::new(metric_name)
    }
}

impl Metric<MetricType::TimingCount> {
    pub fn new_timing_count(metric_name: MetricName<'_, MetricType::TimingCount>) -> (r: Self)
        ensures
            r.wf(),
            r.spec_name() == metric_name.spec_name(),
            r.spec_tags()@ == Seq::<Seq<char>>::empty(),
    {
        Metric::new(metric_name)
    }
}

/// Two metrics with the same name whose tags were given in different
/// orders, or with repeats, have the same tag list, so their keys are equal
/// field for field and hash alike.
pub proof fn lemma_key_ignores_tag_order<T: Impl>(a: Metric<T>, b: Metric<T>)
    requires
        a.wf(),
        b.wf(),
        a.spec_name() == b.spec_name(),
        a.spec_tags().tag_set() == b.spec_tags().tag_set(),
    ensures
        a.spec_tags()@ == b.spec_tags()@,
{
    crate::tags::lemma_same_tags_same_set(a.spec_tags(), b.spec_tags());
}

/// The kind-free identity of a metric: its name and its tag set. Two keys
/// with the same name and the same tags are equal, and hash alike, whatever
/// order the tags were given in.
#[derive(Clone, Debug, Default, Hash, PartialEq, Eq)]
pub struct MetricKey {
    /// Name of the metric, called stat in dogstatsd
    metric_name: String,
    /// Tags for the metric
    metric_tags: TagSet,
}

impl MetricKey {
    pub closed spec fn spec_name(&self) -> Seq<char> {
        self.metric_name@
    }

    pub closed spec fn spec_tags(&self) -> TagSet {
        self.metric_tags
    }

    pub fn new(metric_name: &str, metric_tags: TagSet) -> (r: MetricKey)
        ensures
            r.spec_name() == metric_name@,
            r.spec_tags() == metric_tags,
    {
        MetricKey { metric_name: metric_name.to_owned(), metric_tags }
    }

    pub fn get_name(&self) -> (r: &str)
        ensures
            r@ == self.spec_name(),
    {
        self.metric_name.as_str()
    }

    pub fn get_tags(&self) -> (r: &TagSet)
        ensures
            *r == self.spec_tags(),
    {
        &self.metric_tags
    }
}

} // verus!
