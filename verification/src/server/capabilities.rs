//! What the server tells clients that it can do.
//!
//! The default feature set is deliberately small: a client that is told of
//! `shell_v2` or `sync_v2` switches to a framing that not every device and
//! backend can serve.
use vstd::prelude::*;

use crate::models::DeviceFeatureSet;
use crate::order::list_contains;
use crate::server::backend::BackendCapabilities;
use crate::text::{join_strings, joined, str_eq, texts};

verus! {

/// How the server answers a request to shut down.
#[derive(Clone, Copy, Debug, PartialEq, Eq, Structural)]
pub enum KillPolicy {
    /// Refuse and keep running.
    Reject,
    /// Accept and shut down.
    Shutdown,
}

/// The features, protocol version and shutdown policy of the server.
#[derive(Debug, PartialEq, Eq)]
pub struct ServerCapabilities {
    features: Vec<String>,
    version_hex: String,
    kill_policy: KillPolicy,
}

/// The contents of [`ServerCapabilities`].
pub struct CapabilitiesView {
    pub features: Seq<Seq<char>>,
    pub version_hex: Seq<char>,
    pub kill_policy: KillPolicy,
}

impl View for ServerCapabilities {
    type V = CapabilitiesView;

    closed spec fn view(&self) -> CapabilitiesView {
        CapabilitiesView {
            features: texts(self.features@),
            version_hex: self.version_hex@,
            kill_policy: self.kill_policy,
        }
    }
}

/// The features that are safe to advertise whatever the device and the backend.
pub open spec fn default_features() -> Seq<Seq<char>> {
    seq!["cmd"@, "stat_v2"@, "fixed_push_mkdir"@, "apex"@]
}

/// The features with `f` among them: appended unless it is there already.
pub open spec fn feature_added(features: Seq<Seq<char>>, f: Seq<char>) -> Seq<Seq<char>> {
    if features.contains(f) {
        features
    } else {
        features.push(f)
    }
}

/// The features widened by what the backend implements.
pub open spec fn negotiated(
    features: Seq<Seq<char>>,
    backend: BackendCapabilities,
) -> Seq<Seq<char>> {
    let with_sync = if backend.sync {
        feature_added(features, "sync_v2"@)
    } else {
        features
    };
    if backend.shell_v2 {
        feature_added(with_sync, "shell_v2"@)
    } else {
        with_sync
    }
}

/// Whether a device can serve what the feature makes clients send. Only the two
/// features that change a client's framing ask anything of the device, and a
/// device whose features are not known is not trusted with them.
pub open spec fn device_supports(f: Seq<char>, device: Option<DeviceFeatureSet>) -> bool {
    if f == "shell_v2"@ {
        device matches Some(d) && d.shell_v2
    } else if f == "sync_v2"@ {
        device matches Some(d) && d.stat_v2
    } else {
        true
    }
}

/// Whether a feature holds for the server and for one device.
pub open spec fn holds_for_device(
    features: Seq<Seq<char>>,
    f: Seq<char>,
    device: Option<DeviceFeatureSet>,
) -> bool {
    features.contains(f) && device_supports(f, device)
}

/// The features that hold for the server and for one device.
pub open spec fn device_features(
    features: Seq<Seq<char>>,
    device: Option<DeviceFeatureSet>,
) -> Seq<Seq<char>> {
    features.filter(|f: Seq<char>| device_supports(f, device))
}

/// What a server tells of itself unless told otherwise.
pub open spec fn default_capabilities() -> CapabilitiesView {
    CapabilitiesView {
        features: default_features(),
        version_hex: "0029"@,
        kill_policy: KillPolicy::Reject,
    }
}

impl Default for ServerCapabilities {
    fn default() -> (r: Self)
        ensures
            r@ == default_capabilities(),
    {
        let mut features: Vec<String> = Vec::new();
        features.push("cmd".to_owned());
        features.push("stat_v2".to_owned());
        features.push("fixed_push_mkdir".to_owned());
        features.push("apex".to_owned());
        assert(texts(features@) =~= default_features());
        ServerCapabilities {
            features,
            version_hex: "0029".to_owned(),
            kill_policy: KillPolicy::Reject,
        }
    }
}

impl Clone for ServerCapabilities {
    fn clone(&self) -> (r: Self)
        ensures
            r@ == self@,
    {
        let features = clone_list(&self.features);
        ServerCapabilities {
            features,
            version_hex: self.version_hex.clone(),
            kill_policy: self.kill_policy,
        }
    }
}

/// A copy of a list of strings.
fn clone_list(v: &Vec<String>) -> (r: Vec<String>)
    ensures
        texts(r@) == texts(v@),
{
    let mut r: Vec<String> = Vec::new();
    let mut i: usize = 0;
    while i < v.len()
        invariant
            i <= v.len(),
            texts(r@) == texts(v@).take(i as int),
        decreases v.len() - i,
    {
        let ghost before = r@;
        r.push(v[i].clone());
        proof {
            let all = texts(v@);
            assert(texts(r@) =~= texts(before).push(all[i as int]));
            assert(all.take(i + 1) =~= all.take(i as int).push(all[i as int]));
        }
        i += 1;
    }
    assert(texts(r@) =~= texts(v@));
    r
}

/// Whether a device can serve what the feature makes clients send.
fn device_can(f: &str, device: Option<&DeviceFeatureSet>) -> (r: bool)
    ensures
        r == device_supports(f@, device_caps(device)),
{
    if str_eq(f, "shell_v2") {
        match device {
            Some(d) => d.shell_v2,
            None => false,
        }
    } else if str_eq(f, "sync_v2") {
        match device {
            Some(d) => d.stat_v2,
            None => false,
        }
    } else {
        true
    }
}

/// The features behind an optional reference.
pub open spec fn device_caps(device: Option<&DeviceFeatureSet>) -> Option<DeviceFeatureSet> {
    match device {
        Some(d) => Some(*d),
        None => None,
    }
}

impl ServerCapabilities {
    /// The advertised features, separated by commas.
    #[must_use]
    pub fn features_csv(&self) -> (r: String)
        ensures
            r@ == joined(self@.features, ","@),
    {
        join_strings(&self.features, ",")
    }

    /// The protocol version as four hexadecimal digits.
    #[must_use]
    pub fn version_hex(&self) -> (r: &str)
        ensures
            r@ == self@.version_hex,
    {
        self.version_hex.as_str()
    }

    /// Whether the feature is advertised.
    #[must_use]
    pub fn has_feature(&self, feature: &str) -> (r: bool)
        ensures
            r == self@.features.contains(feature@),
    {
        list_contains(&self.features, feature)
    }

    /// The shutdown policy.
    #[must_use]
    pub fn kill_policy(&self) -> (r: KillPolicy)
        ensures
            r == self@.kill_policy,
    {
        self.kill_policy
    }

    /// Advertises `shell_v2` too. Only right if the backend bridges it.
    #[must_use]
    pub fn with_shell_v2(self) -> (r: Self)
        ensures
            r@ == (CapabilitiesView {
                features: feature_added(self@.features, "shell_v2"@),
                ..self@
            }),
    {
        self.with_feature("shell_v2")
    }

    /// Advertises one more feature. A feature that is advertised already is not
    /// listed twice.
    #[must_use]
    pub fn with_feature(self, feature: &str) -> (r: Self)
        ensures
            r@ == (CapabilitiesView {
                features: feature_added(self@.features, feature@),
                ..self@
            }),
    {
        let mut r = self;
        if !list_contains(&r.features, feature) {
            r.features.push(feature.to_owned());
        }
        assert(r@.features =~= feature_added(self@.features, feature@));
        r
    }

    /// Sets the protocol version.
    #[must_use]
    pub fn with_version_hex(self, version_hex: &str) -> (r: Self)
        ensures
            r@ == (CapabilitiesView { version_hex: version_hex@, ..self@ }),
    {
        let mut r = self;
        r.version_hex = version_hex.to_owned();
        r
    }

    /// Sets the shutdown policy.
    #[must_use]
    pub fn with_kill_policy(self, policy: KillPolicy) -> (r: Self)
        ensures
            r@ == (CapabilitiesView { kill_policy: policy, ..self@ }),
    {
        let mut r = self;
        r.kill_policy = policy;
        r
    }

    /// Widens the features by what the backend implements, and by nothing else.
    #[must_use]
    pub fn negotiated_with(self, backend: BackendCapabilities) -> (r: Self)
        ensures
            r@ == (CapabilitiesView { features: negotiated(self@.features, backend), ..self@ }),
    {
        let mut r = self;
        if backend.sync {
            r = r.with_feature("sync_v2");
        }
        if backend.shell_v2 {
            r = r.with_feature("shell_v2");
        }
        r
    }

    /// Whether the feature is advertised and this device can serve it.
    #[must_use]
    pub fn device_has_feature(&self, feature: &str, device: Option<&DeviceFeatureSet>) -> (r: bool)
        ensures
            r == holds_for_device(self@.features, feature@, device_caps(device)),
    {
        self.has_feature(feature) && device_can(feature, device)
    }

    /// The advertised features that this device can serve, in their order.
    #[must_use]
    pub fn intersected_with_device(&self, device: Option<&DeviceFeatureSet>) -> (r: Vec<String>)
        ensures
            texts(r@) == device_features(self@.features, device_caps(device)),
    {
        let ghost keep = |f: Seq<char>| device_supports(f, device_caps(device));
        let mut r: Vec<String> = Vec::new();
        let mut i: usize = 0;
        proof {
            reveal(Seq::filter);
            assert(texts(r@) =~= texts(self.features@).take(0).filter(keep));
        }
        while i < self.features.len()
            invariant
                i <= self.features.len(),
                keep == (|f: Seq<char>| device_supports(f, device_caps(device))),
                texts(r@) == texts(self.features@).take(i as int).filter(keep),
            decreases self.features.len() - i,
        {
            let ghost before = r@;
            let ghost all = texts(self.features@);
            let kept = device_can(self.features[i].as_str(), device);
            if kept {
                r.push(self.features[i].clone());
            }
            proof {
                reveal(Seq::filter);
                let t = all.take(i + 1);
                assert(t.drop_last() =~= all.take(i as int));
                assert(t.last() == all[i as int]);
                if kept {
                    assert(texts(r@) =~= texts(before).push(all[i as int]));
                } else {
                    assert(texts(r@) =~= texts(before));
                }
            }
            i += 1;
        }
        assert(texts(self.features@).take(self.features.len() as int) =~= texts(self.features@));
        r
    }
}

/// Advertising a feature twice is the same as advertising it once.
pub proof fn adding_a_feature_is_idempotent(features: Seq<Seq<char>>, f: Seq<char>)
    ensures
        feature_added(feature_added(features, f), f) == feature_added(features, f),
        feature_added(features, f).contains(f),
{
    if !features.contains(f) {
        assert(features.push(f)[features.len() as int] == f);
    }
}

/// A list without repetitions stays one when a feature is added.
pub proof fn adding_a_feature_keeps_distinct(features: Seq<Seq<char>>, f: Seq<char>)
    requires
        features.no_duplicates(),
    ensures
        feature_added(features, f).no_duplicates(),
{
}

/// Negotiation keeps what was there, in its place.
pub proof fn negotiation_never_removes(features: Seq<Seq<char>>, backend: BackendCapabilities)
    ensures
        features.is_prefix_of(negotiated(features, backend)),
{
}

/// What negotiation adds is `sync_v2` or `shell_v2`, each exactly if the backend
/// implements it or it was advertised before.
pub proof fn negotiation_is_honest(
    features: Seq<Seq<char>>,
    backend: BackendCapabilities,
    f: Seq<char>,
)
    ensures
        negotiated(features, backend).contains(f) <==> features.contains(f) || (f == "sync_v2"@
            && backend.sync) || (f == "shell_v2"@ && backend.shell_v2),
{
    let sync = "sync_v2"@;
    let shell = "shell_v2"@;
    let first = if backend.sync {
        feature_added(features, sync)
    } else {
        features
    };
    feature_added_holds(features, sync, f);
    feature_added_holds(first, shell, f);
}

/// What a list with one more feature holds.
proof fn feature_added_holds(features: Seq<Seq<char>>, g: Seq<char>, f: Seq<char>)
    ensures
        feature_added(features, g).contains(f) <==> features.contains(f) || f == g,
{
    if !features.contains(g) {
        let r = features.push(g);
        if features.contains(f) {
            let i = choose|i: int| 0 <= i < features.len() && features[i] == f;
            assert(r[i] == f);
        }
        if f == g {
            assert(r[features.len() as int] == f);
        }
        if r.contains(f) && f != g {
            let i = choose|i: int| 0 <= i < r.len() && r[i] == f;
            assert(features[i] == f);
        }
    }
}

/// The default features hold neither of the two that change a client's framing,
/// so a backend that implements nothing optional leaves them as they are.
pub proof fn defaults_do_not_change_framing()
    ensures
        !default_features().contains("shell_v2"@),
        !default_features().contains("sync_v2"@),
        negotiated(
            default_features(),
            BackendCapabilities { sync: false, shell_v2: false, reverse: false },
        ) == default_features(),
{
    reveal_strlit("cmd");
    reveal_strlit("stat_v2");
    reveal_strlit("fixed_push_mkdir");
    reveal_strlit("apex");
    reveal_strlit("shell_v2");
    reveal_strlit("sync_v2");
    let d = default_features();
    assert forall|i: int| 0 <= i < d.len() implies d[i] != "shell_v2"@ && d[i] != "sync_v2"@ by {
        assert("stat_v2"@[0] == 's' && "stat_v2"@[1] == 't');
        assert("shell_v2"@[1] == 'h');
        assert("sync_v2"@[1] == 'y');
    }
}

/// Nothing is advertised for a device that the server does not advertise, and a
/// framing feature is advertised for it only if its own banner has it.
pub proof fn device_features_are_honest(
    features: Seq<Seq<char>>,
    device: Option<DeviceFeatureSet>,
    f: Seq<char>,
)
    ensures
        device_features(features, device).contains(f) <==> features.contains(f)
            && device_supports(f, device),
{
    let keep = |g: Seq<char>| device_supports(g, device);
    let r = features.filter(keep);
    if r.contains(f) {
        let i = choose|i: int| 0 <= i < r.len() && r[i] == f;
        features.lemma_filter_pred(keep, i);
        features.lemma_filter_contains_rev(keep, f);
    }
    if features.contains(f) && keep(f) {
        let i = choose|i: int| 0 <= i < features.len() && features[i] == f;
        features.lemma_filter_contains(keep, i);
    }
}

/// The features that are told of a device are those of the server in their order, but for
/// the two that change a client's framing: `shell_v2` needs the device's word for it, and
/// `sync_v2` its word for the second version of the file transfer requests.
pub proof fn device_features_are_told_in_order(
    features: Seq<Seq<char>>,
    f: Seq<char>,
    device: Option<DeviceFeatureSet>,
)
    ensures
        device_features(Seq::empty(), device) == Seq::<Seq<char>>::empty(),
        device_features(features.push(f), device) == (if f == "shell_v2"@ && !(
        device matches Some(d) && d.shell_v2) || f == "sync_v2"@ && !(
        device matches Some(d) && d.stat_v2) {
            device_features(features, device)
        } else {
            device_features(features, device).push(f)
        }),
{
    reveal(Seq::filter);
    reveal_strlit("shell_v2");
    reveal_strlit("sync_v2");
    assert("shell_v2"@[1] == 'h' && "sync_v2"@[1] == 'y');
    assert(features.push(f).drop_last() =~= features);
    assert(device_features(Seq::empty(), device) =~= Seq::<Seq<char>>::empty());
}

/// A server advertises at first the four features that change no framing, and negotiation
/// puts the two others behind them: `sync_v2` first.
pub proof fn what_is_advertised(backend: BackendCapabilities)
    ensures
        negotiated(default_features(), backend) == seq![
            "cmd"@,
            "stat_v2"@,
            "fixed_push_mkdir"@,
            "apex"@,
        ] + (if backend.sync {
            seq!["sync_v2"@]
        } else {
            Seq::empty()
        }) + (if backend.shell_v2 {
            seq!["shell_v2"@]
        } else {
            Seq::empty()
        }),
{
    defaults_do_not_change_framing();
    reveal_strlit("shell_v2");
    reveal_strlit("sync_v2");
    assert("shell_v2"@[1] == 'h' && "sync_v2"@[1] == 'y');
    let d = default_features();
    let with_sync = if backend.sync {
        d.push("sync_v2"@)
    } else {
        d
    };
    assert(!with_sync.contains("shell_v2"@)) by {
        if with_sync.contains("shell_v2"@) {
            let i = choose|i: int| 0 <= i < with_sync.len() && with_sync[i] == "shell_v2"@;
            if i < d.len() {
                assert(d[i] == "shell_v2"@);
            }
        }
    }
    assert(negotiated(d, backend) =~= seq!["cmd"@, "stat_v2"@, "fixed_push_mkdir"@, "apex"@] + (
    if backend.sync {
        seq!["sync_v2"@]
    } else {
        Seq::empty()
    }) + (if backend.shell_v2 {
        seq!["shell_v2"@]
    } else {
        Seq::empty()
    }));
}

/// A feature holds for a device exactly if it is in the list that clients are told.
pub proof fn features_hold_if_they_are_listed(
    features: Seq<Seq<char>>,
    f: Seq<char>,
    device: Option<DeviceFeatureSet>,
)
    ensures
        holds_for_device(features, f, device) <==> device_features(features, device).contains(f),
{
    device_features_are_honest(features, device, f);
}

/// The framing of a shell needs a device that has it, and that of file transfers one that
/// tells attributes in full; of a device that is not known neither is expected. Nothing
/// else depends on the device.
pub proof fn framings_need_their_device(f: Seq<char>, d: DeviceFeatureSet)
    ensures
        device_supports("shell_v2"@, Some(d)) <==> d.shell_v2,
        device_supports("sync_v2"@, Some(d)) <==> d.stat_v2,
        !device_supports("shell_v2"@, None),
        !device_supports("sync_v2"@, None),
        f != "shell_v2"@ && f != "sync_v2"@ ==> device_supports(f, Some(d)) && device_supports(
            f,
            None,
        ),
{
    reveal_strlit("shell_v2");
    reveal_strlit("sync_v2");
    assert("shell_v2"@.len() == 8 && "sync_v2"@.len() == 7);
}

} // verus!
