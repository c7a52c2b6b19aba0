//! The validation layers the engine asks for, and whether the host has them.

use vstd::prelude::*;
use crate::logs::Level;

verus! {

/// Name of the validation layer the engine asks for by default.
pub const KHRONOS_VALIDATION_LAYER: &'static str = "VK_LAYER_KHRONOS_validation";

/// What the check of the layers has to tell.
#[derive(Debug)]
pub enum LayerDiagnostic {
    /// The host could not enumerate its layers; the text is the driver's own.
    EnumerationFailed(String),
    /// The host has no layer at all.
    NoLayerAvailable,
    /// The host lacks the required layer at this position of the required list.
    LayerMissing(usize),
}

impl LayerDiagnostic {
    /// The level at which the diagnostic is logged. None of them ends the engine:
    /// without its layers it runs on, with validation switched off.
    pub open spec fn level_of(self) -> Level {
        match self {
            LayerDiagnostic::EnumerationFailed(_) => Level::ERROR,
            LayerDiagnostic::NoLayerAvailable => Level::ERROR,
            LayerDiagnostic::LayerMissing(_) => Level::WARN,
        }
    }

    pub fn level(&self) -> (r: Level)
        ensures
            r == self.level_of(),
    {
        match self {
            LayerDiagnostic::EnumerationFailed(_) => Level::ERROR,
            LayerDiagnostic::NoLayerAvailable => Level::ERROR,
            LayerDiagnostic::LayerMissing(_) => Level::WARN,
        }
    }
}

/// The layer `name` is among those found on the host.
pub open spec fn layer_found(found: Seq<String>, name: Seq<char>) -> bool {
    exists|i: int| 0 <= i < found.len() && (#[trigger] found[i])@ == name
}

/// Every required layer is among those found on the host.
pub open spec fn all_layers_found(required: Seq<&'static str>, found: Seq<String>) -> bool {
    forall|k: int| 0 <= k < required.len() ==> layer_found(found, (#[trigger] required[k])@)
}

/// The diagnostics of a check against the layers found on a host that has some:
/// one for each required layer that is missing, in the order of the required list.
pub open spec fn missing_layers(required: Seq<&'static str>, found: Seq<String>) -> Seq<
    LayerDiagnostic,
>
    decreases required.len(),
{
    if required.len() == 0 {
        Seq::empty()
    } else {
        let before = missing_layers(required.drop_last(), found);
        if layer_found(found, required.last()@) {
            before
        } else {
            before.push(LayerDiagnostic::LayerMissing((required.len() - 1) as usize))
        }
    }
}

/// The layers that were requested and whether they are to be used.
#[derive(Debug)]
pub struct ValidationLayer {
    required: [&'static str; 1],
    is_enabled: bool,
}

impl ValidationLayer {
    /// The layers that were requested.
    pub closed spec fn requested(self) -> Seq<&'static str> {
        self.required@
    }

    /// The requested layers are to be used.
    pub closed spec fn enabled(self) -> bool {
        self.is_enabled
    }

    /// Requests the given layers. They count as usable until a check says otherwise.
    pub fn new(required_layer: [&'static str; 1]) -> (r: ValidationLayer)
        ensures
            r.requested() == required_layer@,
            r.enabled(),
    {
        ValidationLayer { required: required_layer, is_enabled: true }
    }

    /// Holds the requested layers against what the host enumerated. The layers are
    /// usable exactly when the host could enumerate and has every one of them.
    /// What went wrong is handed back to be logged; it is never a reason to stop.
    pub fn check(&mut self, layers: Result<Vec<String>, String>) -> (diagnostics: Vec<
        LayerDiagnostic,
    >)
        ensures
            final(self).requested() == old(self).requested(),
            final(self).enabled() == (layers matches Ok(found) && found@.len() > 0
                && all_layers_found(old(self).requested(), found@)),
            final(self).enabled() <==> diagnostics@.len() == 0,
            match layers {
                Err(why) => diagnostics@ == seq![LayerDiagnostic::EnumerationFailed(why)],
                Ok(found) => if found@.len() == 0 {
                    diagnostics@ == seq![LayerDiagnostic::NoLayerAvailable]
                } else {
                    diagnostics@ == missing_layers(old(self).requested(), found@)
                },
            },
    {
        let mut diagnostics: Vec<LayerDiagnostic> = Vec::new();
        match layers {
            Err(why) => {
                diagnostics.push(LayerDiagnostic::EnumerationFailed(why));
                self.is_enabled = false;
            },
            Ok(found) => {
                if found.len() == 0 {
                    diagnostics.push(LayerDiagnostic::NoLayerAvailable);
                    self.is_enabled = false;
                } else {
                    let mut all_found = true;
                    let mut k: usize = 0;
                    while k < self.required.len()
                        invariant
                            k <= self.required@.len(),
                            self.required@ == old(self).required@,
                            all_found == all_layers_found(self.required@.take(k as int), found@),
                            diagnostics@ == missing_layers(
                                self.required@.take(k as int),
                                found@,
                            ),
                            all_found <==> diagnostics@.len() == 0,
                        decreases self.required@.len() - k,
                    {
                        let present = contains_layer(&found, self.required[k]);
                        proof {
                            let next = self.required@.take(k as int + 1);
                            assert(next.drop_last() =~= self.required@.take(k as int));
                            assert(next.last() == self.required@[k as int]);
                            if present && all_found {
                                assert forall|j: int| 0 <= j < next.len() implies layer_found(
                                    found@,
                                    (#[trigger] next[j])@,
                                ) by {
                                    if j < k {
                                        assert(next[j] == self.required@.take(k as int)[j]);
                                    }
                                }
                            } else if !present {
                                assert(!layer_found(found@, next[k as int]@));
                            } else {
                                let bad = choose|j: int|
                                    0 <= j < k && !layer_found(
                                        found@,
                                        (#[trigger] self.required@.take(k as int)[j])@,
                                    );
                                assert(next[bad] == self.required@.take(k as int)[bad]);
                            }
                        }
                        if !present {
                            diagnostics.push(LayerDiagnostic::LayerMissing(k));
                            all_found = false;
                        }
                        k += 1;
                    }
                    assert(self.required@.take(k as int) =~= self.required@);
                    self.is_enabled = all_found;
                }
            },
        }
        diagnostics
    }

    pub fn is_enabled(&self) -> (r: bool)
        ensures
            r == self.enabled(),
    {
        self.is_enabled
    }

    /// The layers to name when an instance or a device is created: the requested
    /// ones where they are usable, none where they are not.
    pub fn get_enable_layer(&self) -> (names: Vec<&'static str>)
        ensures
            names@ == if self.enabled() {
                self.requested()
            } else {
                Seq::empty()
            },
    {
        let mut names: Vec<&'static str> = Vec::new();
        if self.is_enabled {
            let mut k: usize = 0;
            while k < self.required.len()
                invariant
                    k <= self.required@.len(),
                    names@ == self.required@.take(k as int),
                decreases self.required@.len() - k,
            {
                names.push(self.required[k]);
                k += 1;
                assert(names@ =~= self.required@.take(k as int));
            }
            assert(self.required@.take(k as int) =~= self.required@);
        }
        names
    }
}

/// Tells whether a layer of the given name is among those found on the host.
pub fn contains_layer(found: &Vec<String>, name: &str) -> (r: bool)
    ensures
        r == layer_found(found@, name@),
{
    let wanted = name.to_owned();
    let mut i: usize = 0;
    while i < found.len()
        invariant
            i <= found.len(),
            wanted@ == name@,
            forall|j: int| 0 <= j < i ==> (#[trigger] found@[j])@ != name@,
        decreases found.len() - i,
    {
        if found[i] == wanted {
            return true;
        }
        i += 1;
    }
    false
}

/// Tells whether the host has every layer of the required list. Mirrors
/// `ValidationLayer::check` for callers that keep no state.
pub fn check_validation_layer_support(
    required: [&'static str; 1],
    layers: Result<Vec<String>, String>,
) -> (r: bool)
    ensures
        r == (layers matches Ok(found) && found@.len() > 0 && all_layers_found(
            required@,
            found@,
        )),
{
    let mut state = ValidationLayer::new(required);
    let _ = state.check(layers);
    state.is_enabled()
}

} // verus!
