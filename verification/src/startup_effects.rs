//! Resumable preparation of the fixed startup effect textures: one authored
//! texture per turn in a fixed order; a missing or invalid stock texture
//! keeps its slot empty (the stock green texture stands in), an
//! infrastructure failure ends the preparation. `S` is a decoded source.

use vstd::prelude::*;

verus! {

/// The effect textures, in slot order.
pub open spec fn spec_effect_path(index: int) -> &'static str {
    if index == 0 {
        "XTextures/splash/splash.blp"
    } else if index == 1 {
        "XTextures/splash/wake.blp"
    } else {
        "Textures/WaterPoop02.blp"
    }
}

pub const EFFECT_COUNT: usize = 3;

/// The outcome of loading the current texture this turn.
pub enum EffectLoad<S> {
    /// The source waits on a dependency: resume later.
    Pending,
    Loaded(S),
    /// The stock texture is missing or invalid: its slot stays empty.
    Missing,
    /// The source pipeline failed.
    Failed,
}

/// What the preparation does after a turn.
#[derive(Clone, Copy, Debug, PartialEq, Eq, Structural)]
pub enum EffectStep {
    Wait,
    Continue,
    Fatal,
}

/// The slots prepared so far and the texture being loaded.
pub struct EffectPreparation<S> {
    sources: Vec<Option<S>>,
    index: usize,
}

impl<S> EffectPreparation<S> {
    pub closed spec fn sources(&self) -> Seq<Option<S>> {
        self.sources@
    }

    pub closed spec fn index(&self) -> nat {
        self.index as nat
    }

    pub open spec fn well_formed(&self) -> bool {
        &&& self.sources().len() == EFFECT_COUNT
        &&& self.index() <= EFFECT_COUNT
    }

    pub fn new() -> (preparation: Self)
        ensures
            preparation.well_formed(),
            preparation.index() == 0,
            preparation.sources() == seq![None::<S>, None::<S>, None::<S>],
    {
        let mut sources: Vec<Option<S>> = Vec::new();
        sources.push(None);
        sources.push(None);
        sources.push(None);
        let preparation = EffectPreparation { sources, index: 0 };
        assert(preparation.sources() =~= seq![None::<S>, None::<S>, None::<S>]);
        preparation
    }

    /// The texture to load this turn, or none once every slot was visited.
    pub fn next_path(&self) -> (path: Option<&'static str>)
        requires
            self.well_formed(),
        ensures
            path == if self.index() < EFFECT_COUNT {
                Some(spec_effect_path(self.index() as int))
            } else {
                None::<&'static str>
            },
    {
        if self.index == 0 {
            Some("XTextures/splash/splash.blp")
        } else if self.index == 1 {
            Some("XTextures/splash/wake.blp")
        } else if self.index == 2 {
            Some("Textures/WaterPoop02.blp")
        } else {
            None
        }
    }

    /// Applies this turn's load of the current texture.
    pub fn receive(&mut self, load: EffectLoad<S>) -> (step: EffectStep)
        requires
            old(self).well_formed(),
            old(self).index() < EFFECT_COUNT,
        ensures
            final(self).well_formed(),
            match load {
                EffectLoad::Pending => step == EffectStep::Wait && final(self).index() == old(
                    self,
                ).index() && final(self).sources() == old(self).sources(),
                EffectLoad::Loaded(s) => step == EffectStep::Continue && final(self).index()
                    == old(self).index() + 1 && final(self).sources() == old(self).sources().update(
                    old(self).index() as int,
                    Some(s),
                ),
                EffectLoad::Missing => step == EffectStep::Continue && final(self).index() == old(
                    self,
                ).index() + 1 && final(self).sources() == old(self).sources(),
                EffectLoad::Failed => step == EffectStep::Fatal && final(self).index() == old(
                    self,
                ).index() && final(self).sources() == old(self).sources(),
            },
    {
        match load {
            EffectLoad::Pending => EffectStep::Wait,
            EffectLoad::Loaded(s) => {
                self.sources.set(self.index, Some(s));
                self.index = self.index + 1;
                EffectStep::Continue
            },
            EffectLoad::Missing => {
                self.index = self.index + 1;
                EffectStep::Continue
            },
            EffectLoad::Failed => EffectStep::Fatal,
        }
    }

    /// The prepared slots, in path order.
    pub fn finish(self) -> (sources: Vec<Option<S>>)
        ensures
            sources@ == self.sources(),
    {
        self.sources
    }
}

} // verus!
