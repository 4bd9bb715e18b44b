use vstd::prelude::*;
use crate::names::{contains_name, dedup, lemma_dedup, names_contain, names_view};

verus! {

/// Settings resolved once at startup, in place of per-platform builds.
#[derive(Clone, Copy, Debug, PartialEq, Eq, Structural)]
pub struct PlatformConfig {
    /// Route driver diagnostics into the log, enabling the debug-utils
    /// extension and the validation layer where the driver offers them.
    pub debug_diagnostics: bool,
    /// The platform runs the API over a portability layer and needs the
    /// portability-enumeration extension and instance flag.
    pub portability_enumeration: bool,
}

/// The extensions, layers and creation flag the instance is created with.
pub struct InstanceCapabilities {
    pub extensions: Vec<String>,
    pub layers: Vec<String>,
    pub enumerate_portability: bool,
    /// The debug-utils extension is enabled: the diagnostic bridge is to be
    /// attached, both at instance creation and as a standing messenger.
    pub debug_utils: bool,
}

pub open spec fn debug_utils_extension() -> Seq<char> {
    "VK_EXT_debug_utils"@
}

pub open spec fn portability_enumeration_extension() -> Seq<char> {
    "VK_KHR_portability_enumeration"@
}

pub open spec fn validation_layer() -> Seq<char> {
    "VK_LAYER_KHRONOS_validation"@
}

/// Whether the diagnostic bridge is used: diagnostics are on and the driver
/// offers the debug-utils extension.
pub open spec fn debug_utils_choice(available_extensions: Seq<String>, config: PlatformConfig) -> bool {
    config.debug_diagnostics && names_contain(available_extensions, debug_utils_extension())
}

/// The extensions added to the windowing system's list by the configuration
/// and by what the driver offers.
pub open spec fn extra_extensions(available_extensions: Seq<String>, config: PlatformConfig) -> Seq<Seq<char>> {
    (if debug_utils_choice(available_extensions, config) {
        seq![debug_utils_extension()]
    } else {
        Seq::empty()
    })
        + (if config.portability_enumeration {
        seq![portability_enumeration_extension()]
    } else {
        Seq::empty()
    })
}

pub open spec fn extension_choice(
    required: Seq<String>,
    available_extensions: Seq<String>,
    config: PlatformConfig,
) -> Seq<Seq<char>> {
    dedup(names_view(required) + extra_extensions(available_extensions, config))
}

pub open spec fn layer_choice(available_layers: Seq<String>, config: PlatformConfig) -> Seq<Seq<char>> {
    if config.debug_diagnostics && names_contain(available_layers, validation_layer()) {
        seq![validation_layer()]
    } else {
        Seq::empty()
    }
}

/// Appends `name` unless `names` holds it already.
fn push_unique(names: &mut Vec<String>, name: String)
    ensures
        names_view(final(names)@) == if names_view(old(names)@).contains(name@) {
            names_view(old(names)@)
        } else {
            names_view(old(names)@).push(name@)
        },
{
    let present = contains_name(names, &name);
    proof {
        if present {
            let k = choose|k: int| 0 <= k < names@.len() && #[trigger] names@[k]@ == name@;
            assert(names_view(names@)[k] == name@);
        } else {
            assert forall|k: int| 0 <= k < names@.len() implies names_view(names@)[k] != name@ by {
                assert(names@[k]@ != name@);
            }
        }
    }
    if !present {
        names.push(name);
        assert(names_view(names@) =~= names_view(old(names)@).push(name@));
    }
}

/// Decides the instance's extensions and layers.
///
/// Extensions: those the windowing system requires, then the debug-utils
/// extension when diagnostics are on and the driver offers it, then the
/// portability-enumeration extension where the platform needs it; each name
/// once. Layers: the validation layer when diagnostics are on and the driver
/// offers it, else none. A missing layer or extension is no failure: the
/// context is built without it.
pub fn negotiate_capabilities(
    required: &Vec<String>,
    available_extensions: &Vec<String>,
    available_layers: &Vec<String>,
    config: PlatformConfig,
) -> (r: InstanceCapabilities)
    ensures
        names_view(r.extensions@) == extension_choice(required@, available_extensions@, config),
        names_view(r.layers@) == layer_choice(available_layers@, config),
        r.enumerate_portability == config.portability_enumeration,
        r.debug_utils == debug_utils_choice(available_extensions@, config),
        names_view(r.extensions@).no_duplicates(),
        forall|x: Seq<char>|
            #[trigger] names_view(r.extensions@).contains(x) <==> names_view(required@).contains(x)
                || extra_extensions(available_extensions@, config).contains(x),
        !names_view(required@).contains(debug_utils_extension()) ==> (names_view(
            r.extensions@,
        ).contains(debug_utils_extension()) <==> r.debug_utils),
        !names_contain(available_layers@, validation_layer()) ==> r.layers@.len() == 0,
{
    let ghost extras = extra_extensions(available_extensions@, config);
    let ghost all = names_view(required@) + extras;
    let mut extensions: Vec<String> = Vec::new();
    let mut i: usize = 0;
    while i < required.len()
        invariant
            i <= required@.len(),
            all == names_view(required@) + extras,
            names_view(extensions@) == dedup(all.take(i as int)),
        decreases required@.len() - i,
    {
        let name = required[i].clone();
        push_unique(&mut extensions, name);
        proof {
            assert(all.take(i + 1).drop_last() =~= all.take(i as int));
            assert(all.take(i + 1).last() == all[i as int]);
        }
        i = i + 1;
    }
    let ghost n = required@.len() as int;
    let mut debug_utils = false;
    if config.debug_diagnostics {
        let name = String::from_str("VK_EXT_debug_utils");
        if contains_name(available_extensions, &name) {
            push_unique(&mut extensions, name);
            debug_utils = true;
            proof {
                assert(all.take(n + 1).drop_last() =~= all.take(n));
                assert(all[n] == debug_utils_extension());
                n = n + 1;
            }
        }
    }
    assert(names_view(extensions@) == dedup(all.take(n)));
    if config.portability_enumeration {
        let name = String::from_str("VK_KHR_portability_enumeration");
        push_unique(&mut extensions, name);
        proof {
            assert(all.take(n + 1).drop_last() =~= all.take(n));
            assert(all[n] == portability_enumeration_extension());
            n = n + 1;
        }
    }
    assert(names_view(extensions@) == dedup(all.take(n)));
    assert(n == all.len());
    assert(all.take(n) =~= all);
    proof {
        lemma_dedup(all);
        assert forall|x: Seq<char>| all.contains(x) <==> names_view(required@).contains(x)
            || extras.contains(x) by {
            let a = names_view(required@);
            let b = extras;
            if all.contains(x) {
                let k = choose|k: int| 0 <= k < all.len() && all[k] == x;
                if k < a.len() {
                    assert(a[k] == x);
                } else {
                    assert(b[k - a.len()] == x);
                }
            }
            if a.contains(x) {
                let k = choose|k: int| 0 <= k < a.len() && a[k] == x;
                assert(all[k] == x);
            }
            if b.contains(x) {
                let k = choose|k: int| 0 <= k < b.len() && b[k] == x;
                assert(all[a.len() + k] == x);
            }
        }
    }

    let mut layers: Vec<String> = Vec::new();
    if config.debug_diagnostics {
        let validation = String::from_str("VK_LAYER_KHRONOS_validation");
        if contains_name(available_layers, &validation) {
            layers.push(validation);
            assert(names_view(layers@) =~= seq![validation_layer()]);
        }
    }
    assert(names_view(layers@) =~= layer_choice(available_layers@, config));
    proof {
        reveal_strlit("VK_EXT_debug_utils");
        reveal_strlit("VK_KHR_portability_enumeration");
        assert(debug_utils_extension().len() != portability_enumeration_extension().len());
        if debug_utils {
            assert(extras[0] == debug_utils_extension());
        } else {
            assert forall|k: int| 0 <= k < extras.len() implies extras[k] != debug_utils_extension() by {
                assert(extras[k] == portability_enumeration_extension());
            }
        }
    }
    InstanceCapabilities {
        extensions,
        layers,
        enumerate_portability: config.portability_enumeration,
        debug_utils,
    }
}

} // verus!
