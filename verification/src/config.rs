//! Application settings and the preset store: the list of named transformer
//! chains, read on every pipeline run and changed through add and delete.
//! Persisting the list and guarding it with a lock are the surrounding
//! application's work; every operation here returns or takes plain values.

use vstd::prelude::*;
use crate::args::ArgMap;
use crate::strutil::str_eq;

verus! {

/// Unrelated application settings, kept beside the presets.
#[derive(Debug)]
pub struct Config {
    pub theme: String,
    pub font_size: u8,
}

impl Default for Config {
    fn default() -> (r: Self)
        ensures
            r.theme@ == Seq::<char>::empty(),
            r.font_size == 0,
    {
        Config { theme: String::new(), font_size: 0 }
    }
}

/// A named, ordered chain of transformer names with one shared argument map.
#[derive(Debug)]
pub struct Preset {
    pub name: String,
    pub transformers: Vec<String>,
    pub extra_args: Option<ArgMap>,
}

/// What a preset is mathematically: its name, its transformer names in
/// execution order, and its argument entries.
pub ghost struct PresetView {
    pub name: Seq<char>,
    pub transformers: Seq<Seq<char>>,
    pub extra_args: Option<Seq<(Seq<char>, Seq<char>)>>,
}

impl View for Preset {
    type V = PresetView;

    open spec fn view(&self) -> PresetView {
        PresetView {
            name: self.name@,
            transformers: self.transformers.deep_view(),
            extra_args: match self.extra_args {
                Some(m) => Some(m@),
                None => None,
            },
        }
    }
}

impl DeepView for Preset {
    type V = PresetView;

    open spec fn deep_view(&self) -> PresetView {
        self.view()
    }
}

impl Clone for Preset {
    fn clone(&self) -> (r: Self)
        ensures
            r@ == self@,
    {
        let name = self.name.clone();
        let mut transformers: Vec<String> = Vec::new();
        let mut i: usize = 0;
        while i < self.transformers.len()
            invariant
                i <= self.transformers.len(),
                transformers.deep_view() == self.transformers.deep_view().take(i as int),
            decreases self.transformers.len() - i,
        {
            let ghost pre = transformers.deep_view();
            proof {
                assert(pre.len() == transformers@.len());
            }
            transformers.push(self.transformers[i].clone());
            proof {
                assert(transformers.deep_view() =~= self.transformers.deep_view().take(
                    i as int + 1,
                ));
            }
            i = i + 1;
        }
        proof {
            assert(transformers.deep_view() =~= self.transformers.deep_view());
        }
        let extra_args = match &self.extra_args {
            Some(m) => Some(m.clone()),
            None => None,
        };
        Preset { name, transformers, extra_args }
    }
}

/// The stored preset list.
#[derive(Debug)]
pub struct Presets {
    pub presets: Vec<Preset>,
}

impl View for Presets {
    type V = Seq<PresetView>;

    open spec fn view(&self) -> Seq<PresetView> {
        self.presets.deep_view()
    }
}

impl Default for Presets {
    fn default() -> (r: Self)
        ensures
            r@ == Seq::<PresetView>::empty(),
    {
        let r = Presets { presets: Vec::new() };
        proof {
            assert(r@ =~= Seq::<PresetView>::empty());
        }
        r
    }
}

/// The first preset named `name`, if any.
pub open spec fn spec_find_preset(ps: Seq<PresetView>, name: Seq<char>) -> Option<PresetView>
    decreases ps.len(),
{
    if ps.len() == 0 {
        None
    } else if ps[0].name == name {
        Some(ps[0])
    } else {
        spec_find_preset(ps.skip(1), name)
    }
}

/// `ps` without every preset named `name`.
pub open spec fn spec_delete(ps: Seq<PresetView>, name: Seq<char>) -> Seq<PresetView>
    decreases ps.len(),
{
    if ps.len() == 0 {
        Seq::empty()
    } else if ps.last().name == name {
        spec_delete(ps.drop_last(), name)
    } else {
        spec_delete(ps.drop_last(), name).push(ps.last())
    }
}

/// Whether the plain triple `e` carries the same data as the preset `p`.
pub open spec fn spec_models_preset(
    e: (String, Vec<String>, Option<ArgMap>),
    p: PresetView,
) -> bool {
    e.0@ == p.name && e.1.deep_view() == p.transformers && (match e.2 {
        Some(m) => p.extra_args == Some(m@),
        None => p.extra_args is None,
    })
}

impl Presets {
    /// An empty store.
    pub fn new() -> (r: Self)
        ensures
            r@ == Seq::<PresetView>::empty(),
    {
        Presets::default()
    }

    /// The preset named `name` as a plain triple, or empty fallbacks when no
    /// preset bears that name.
    pub fn get_preset_by_name(&self, name: &str) -> (r: (
        String,
        Vec<String>,
        Option<ArgMap>,
    ))
        ensures
            match spec_find_preset(self@, name@) {
                Some(p) => spec_models_preset(r, p),
                None => r.0@ == Seq::<char>::empty() && r.1.deep_view() == Seq::<
                    Seq<char>,
                >::empty() && r.2 is None,
            },
    {
        let mut j: usize = 0;
        proof {
            assert(self@.skip(0) =~= self@);
        }
        while j < self.presets.len()
            invariant
                j <= self.presets.len(),
                spec_find_preset(self@, name@) == spec_find_preset(self@.skip(j as int), name@),
            decreases self.presets.len() - j,
        {
            proof {
                assert(self@.skip(j as int)[0] == self@[j as int]);
                assert(self@.skip(j as int).skip(1) =~= self@.skip(j as int + 1));
            }
            if str_eq(self.presets[j].name.as_str(), name) {
                let p = self.presets[j].clone();
                return (p.name, p.transformers, p.extra_args);
            }
            j = j + 1;
        }
        let empty: Vec<String> = Vec::new();
        proof {
            assert(empty.deep_view() =~= Seq::<Seq<char>>::empty());
        }
        (String::new(), empty, None)
    }

    /// Every preset, as plain triples, in stored order: a snapshot copy that
    /// shares nothing with the store.
    pub fn get_presets(&self) -> (r: Vec<(String, Vec<String>, Option<ArgMap>)>)
        ensures
            r@.len() == self@.len(),
            forall|i: int| 0 <= i < r@.len() ==> spec_models_preset(#[trigger] r@[i], self@[i]),
    {
        let mut r: Vec<(String, Vec<String>, Option<ArgMap>)> = Vec::new();
        let mut j: usize = 0;
        while j < self.presets.len()
            invariant
                j <= self.presets.len(),
                r@.len() == j,
                forall|i: int| 0 <= i < j ==> spec_models_preset(#[trigger] r@[i], self@[i]),
            decreases self.presets.len() - j,
        {
            let p = self.presets[j].clone();
            r.push((p.name, p.transformers, p.extra_args));
            j = j + 1;
        }
        r
    }

    /// Appends a preset built from the given parts.
    pub fn add_preset(
        &mut self,
        name: &str,
        transformer_list: Vec<String>,
        extra_args: Option<ArgMap>,
    )
        ensures
            final(self)@ == old(self)@.push(
                PresetView {
                    name: name@,
                    transformers: transformer_list.deep_view(),
                    extra_args: match extra_args {
                        Some(m) => Some(m@),
                        None => None,
                    },
                },
            ),
    {
        let ghost before = self@;
        let ghost pv = PresetView {
            name: name@,
            transformers: transformer_list.deep_view(),
            extra_args: match &extra_args {
                Some(m) => Some(m@),
                None => None,
            },
        };
        proof {
            assert(before.len() == self.presets@.len());
        }
        self.presets.push(Preset { name: name.to_owned(), transformers: transformer_list, extra_args });
        proof {
            assert(self@ =~= before.push(pv));
        }
    }

    /// Removes every preset named `name`.
    pub fn delete_preset(&mut self, name: &str)
        ensures
            final(self)@ == spec_delete(old(self)@, name@),
    {
        let mut kept: Vec<Preset> = Vec::new();
        let mut j: usize = 0;
        proof {
            assert(kept.deep_view() =~= spec_delete(self@.take(0), name@));
        }
        while j < self.presets.len()
            invariant
                j <= self.presets.len(),
                kept.deep_view() == spec_delete(self@.take(j as int), name@),
            decreases self.presets.len() - j,
        {
            let ghost pre = kept.deep_view();
            proof {
                assert(pre.len() == kept@.len());
                assert(self@.take(j as int + 1).drop_last() =~= self@.take(j as int));
                assert(self@.take(j as int + 1).last() == self@[j as int]);
            }
            if !str_eq(self.presets[j].name.as_str(), name) {
                kept.push(self.presets[j].clone());
                proof {
                    assert(kept.deep_view() =~= pre.push(self@[j as int]));
                }
            }
            j = j + 1;
        }
        proof {
            assert(self@.take(self.presets@.len() as int) =~= self@);
        }
        self.presets = kept;
    }
}

/// A newly added preset is listed, last, with its transformer order kept.
pub proof fn lemma_add_preset_listed(ps: Seq<PresetView>, p: PresetView)
    ensures
        ps.push(p).len() == ps.len() + 1,
        ps.push(p)[ps.len() as int] == p,
        forall|i: int| 0 <= i < ps.len() ==> ps.push(p)[i] == ps[i],
{
}

/// Adding a preset under a name the store does not hold makes a lookup of
/// that name find it.
pub proof fn lemma_add_then_find(ps: Seq<PresetView>, p: PresetView)
    requires
        spec_find_preset(ps, p.name) is None,
    ensures
        spec_find_preset(ps.push(p), p.name) == Some(p),
    decreases ps.len(),
{
    if ps.len() == 0 {
        assert(ps.push(p)[0] == p);
    } else {
        assert(ps.push(p)[0] == ps[0]);
        assert(ps.push(p).skip(1) =~= ps.skip(1).push(p));
        lemma_add_then_find(ps.skip(1), p);
    }
}

proof fn lemma_find_none_when_absent(ps: Seq<PresetView>, name: Seq<char>)
    requires
        forall|i: int| 0 <= i < ps.len() ==> (#[trigger] ps[i]).name != name,
    ensures
        spec_find_preset(ps, name) is None,
    decreases ps.len(),
{
    if ps.len() > 0 {
        assert(ps[0].name != name);
        assert(forall|i: int| 0 <= i < ps.skip(1).len() ==> (#[trigger] ps.skip(1)[i]).name
            != name);
        lemma_find_none_when_absent(ps.skip(1), name);
    }
}

/// Deleting a name removes every preset bearing it, keeps every other preset
/// in order, and a lookup of that name afterwards finds nothing.
pub proof fn lemma_delete_preset_removes_all(ps: Seq<PresetView>, name: Seq<char>)
    ensures
        forall|i: int|
            0 <= i < spec_delete(ps, name).len() ==> (#[trigger] spec_delete(ps, name)[i]).name
                != name,
        spec_find_preset(spec_delete(ps, name), name) is None,
    decreases ps.len(),
{
    if ps.len() > 0 {
        lemma_delete_preset_removes_all(ps.drop_last(), name);
        assert(spec_delete(ps.drop_last(), name) == if ps.last().name == name {
            spec_delete(ps, name)
        } else {
            spec_delete(ps, name).drop_last()
        });
    }
    lemma_find_none_when_absent(spec_delete(ps, name), name);
}

} // verus!
