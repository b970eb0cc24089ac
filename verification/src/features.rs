//! Feature selection: derives the ordered list of hardware features under
//! test from the command-line flags, and the space-joined argument string
//! handed to the test command.
//!
//! `no_sms` is deliberately absent from the reported list: it only modifies
//! behaviour (it suppresses real SMS sending and with it the interactive
//! safety gate); it is not itself a tested subsystem.

use vstd::prelude::*;
use vstd::string::*;
use vstd::seq_lib::*;

verus! {

/// A hardware subsystem the target repository can be tested with.
#[derive(Clone, Copy, Debug, PartialEq, Eq, Structural)]
pub enum Feature {
    Raspicam,
    Fona,
    Gps,
    Telemetry,
    NoPowerOff,
}

/// The boolean command-line flags, as parsed upstream. `no_sms` is only
/// meaningful alongside `fona`; that constraint is enforced by the argument
/// parser, upstream of this library.
#[derive(Clone, Copy, Debug, PartialEq, Eq, Structural)]
pub struct Flags {
    pub raspicam: bool,
    pub fona: bool,
    pub no_sms: bool,
    pub gps: bool,
    pub telemetry: bool,
    pub no_power_off: bool,
}

/// The name under which a feature is reported and passed to the test command.
pub open spec fn name_of(x: Feature) -> Seq<char> {
    match x {
        Feature::Raspicam => "raspicam"@,
        Feature::Fona => "fona"@,
        Feature::Gps => "gps"@,
        Feature::Telemetry => "telemetry"@,
        Feature::NoPowerOff => "no_power_off"@,
    }
}

/// Whether the flag for feature `x` is set.
pub open spec fn active(f: Flags, x: Feature) -> bool {
    match x {
        Feature::Raspicam => f.raspicam,
        Feature::Fona => f.fona,
        Feature::Gps => f.gps,
        Feature::Telemetry => f.telemetry,
        Feature::NoPowerOff => f.no_power_off,
    }
}

/// The fixed declaration order of the testable features.
pub open spec fn declaration_order() -> Seq<Feature> {
    seq![
        Feature::Raspicam,
        Feature::Fona,
        Feature::Gps,
        Feature::Telemetry,
        Feature::NoPowerOff,
    ]
}

/// The active features, in declaration order.
pub open spec fn selected_features(f: Flags) -> Seq<Feature> {
    (if f.raspicam {
        seq![Feature::Raspicam]
    } else {
        Seq::<Feature>::empty()
    }) + (if f.fona {
        seq![Feature::Fona]
    } else {
        Seq::<Feature>::empty()
    }) + (if f.gps {
        seq![Feature::Gps]
    } else {
        Seq::<Feature>::empty()
    }) + (if f.telemetry {
        seq![Feature::Telemetry]
    } else {
        Seq::<Feature>::empty()
    }) + (if f.no_power_off {
        seq![Feature::NoPowerOff]
    } else {
        Seq::<Feature>::empty()
    })
}

/// The names of the active features, in declaration order: what the result
/// record reports and what parametrizes the test command.
pub open spec fn feature_names(f: Flags) -> Seq<Seq<char>> {
    selected_features(f).map_values(|x: Feature| name_of(x))
}

/// `names` joined with single spaces: `"fona gps"` for `["fona", "gps"]`.
pub open spec fn space_joined(names: Seq<Seq<char>>) -> Seq<char>
    decreases names.len(),
{
    if names.len() == 0 {
        Seq::<char>::empty()
    } else if names.len() == 1 {
        names[0]
    } else {
        space_joined(names.drop_last()) + seq![' '] + names.last()
    }
}

/// The selection is exactly the declaration order restricted to the set
/// flags: order is preserved whatever order the flags arrived in.
pub proof fn lemma_selection_is_ordered_filter(f: Flags)
    ensures
        selected_features(f) == declaration_order().filter(|x: Feature| active(f, x)),
{
    reveal_with_fuel(Seq::filter, 6);
    assert(selected_features(f) =~= declaration_order().filter(|x: Feature| active(f, x)));
}

/// The reported names never include `no_sms`.
pub proof fn lemma_no_sms_never_reported(f: Flags)
    ensures
        forall|i: int|
            0 <= i < feature_names(f).len() ==> #[trigger] feature_names(f)[i] != "no_sms"@,
{
    reveal_strlit("raspicam");
    reveal_strlit("fona");
    reveal_strlit("gps");
    reveal_strlit("telemetry");
    reveal_strlit("no_power_off");
    reveal_strlit("no_sms");
    assert forall|i: int| 0 <= i < feature_names(f).len() implies #[trigger] feature_names(f)[i]
        != "no_sms"@ by {
        let x = selected_features(f)[i];
        assert(feature_names(f)[i] == name_of(x));
        assert(name_of(x).len() != "no_sms"@.len());
    }
}

/// The active features, in declaration order.
pub fn select(f: &Flags) -> (r: Vec<Feature>)
    ensures
        r@ == selected_features(*f),
{
    let mut r: Vec<Feature> = Vec::new();
    if f.raspicam {
        r.push(Feature::Raspicam);
    }
    if f.fona {
        r.push(Feature::Fona);
    }
    if f.gps {
        r.push(Feature::Gps);
    }
    if f.telemetry {
        r.push(Feature::Telemetry);
    }
    if f.no_power_off {
        r.push(Feature::NoPowerOff);
    }
    proof {
        assert(r@ =~= selected_features(*f));
    }
    r
}

/// The reported name of one feature.
pub fn name(x: Feature) -> (r: &'static str)
    ensures
        r@ == name_of(x),
{
    match x {
        Feature::Raspicam => "raspicam",
        Feature::Fona => "fona",
        Feature::Gps => "gps",
        Feature::Telemetry => "telemetry",
        Feature::NoPowerOff => "no_power_off",
    }
}

/// The names of the active features, in declaration order.
pub fn feature_name_list(f: &Flags) -> (r: Vec<String>)
    ensures
        r.deep_view() == feature_names(*f),
{
    let sel = select(f);
    let mut r: Vec<String> = Vec::new();
    let mut i: usize = 0;
    while i < sel.len()
        invariant
            0 <= i <= sel.len(),
            sel@ == selected_features(*f),
            r@.len() == i,
            forall|j: int| 0 <= j < i ==> #[trigger] r@[j]@ == name_of(sel@[j]),
        decreases sel.len() - i,
    {
        r.push(String::from_str(name(sel[i])));
        i = i + 1;
    }
    proof {
        assert(r.deep_view() =~~= feature_names(*f));
    }
    r
}

/// The space-joined feature string that parametrizes the test command:
/// `None` when no feature is active (the argument is then omitted entirely).
pub fn feature_argument(f: &Flags) -> (r: Option<String>)
    ensures
        feature_names(*f).len() == 0 <==> r is None,
        r matches Some(s) ==> s@ == space_joined(feature_names(*f)),
{
    let names = feature_name_list(f);
    if names.len() == 0 {
        return None;
    }
    let mut s = String::new();
    let mut i: usize = 0;
    while i < names.len()
        invariant
            0 <= i <= names.len(),
            names.deep_view() == feature_names(*f),
            names.deep_view().len() == names@.len(),
            s@ == space_joined(names.deep_view().subrange(0, i as int)),
        decreases names.len() - i,
    {
        if i > 0 {
            s.append(" ");
        }
        s.append(names[i].as_str());
        proof {
            let pre = names.deep_view().subrange(0, i as int);
            let post = names.deep_view().subrange(0, (i + 1) as int);
            assert(post.drop_last() =~= pre);
            assert(post.last() == names.deep_view()[i as int]);
            if i == 0 {
                reveal_strlit(" ");
                assert(s@ =~= post[0]);
            } else {
                reveal_strlit(" ");
                assert(s@ =~= space_joined(post.drop_last()) + seq![' '] + post.last());
            }
        }
        i = i + 1;
    }
    proof {
        assert(names.deep_view().subrange(0, names.deep_view().len() as int) =~= names.deep_view());
    }
    Some(s)
}

} // verus!
