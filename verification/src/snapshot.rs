//! The data model: one [`NetworkStatus`] per blockchain network, and the ordered
//! [`StatusSnapshot`] that one fetch yields.

use crate::error::FetchError;
use vstd::prelude::*;

verus! {

/// Mathematical value of a [`NetworkStatus`].
pub struct NetworkStatusView {
    pub network_name: Seq<char>,
    pub deposit_enabled: bool,
    pub deposit_reason: Seq<char>,
    pub withdraw_enabled: bool,
    pub withdraw_reason: Seq<char>,
}

/// Availability of the monitored asset on one network.
///
/// A reason is meaningful only while the matching flag is `false`.
#[derive(Debug)]
pub struct NetworkStatus {
    pub network_name: String,
    pub deposit_enabled: bool,
    pub deposit_reason: String,
    pub withdraw_enabled: bool,
    pub withdraw_reason: String,
}

impl View for NetworkStatus {
    type V = NetworkStatusView;

    open spec fn view(&self) -> NetworkStatusView {
        NetworkStatusView {
            network_name: self.network_name@,
            deposit_enabled: self.deposit_enabled,
            deposit_reason: self.deposit_reason@,
            withdraw_enabled: self.withdraw_enabled,
            withdraw_reason: self.withdraw_reason@,
        }
    }
}

impl Clone for NetworkStatus {
    fn clone(&self) -> (copy: Self)
        ensures
            copy@ == self@,
    {
        NetworkStatus {
            network_name: self.network_name.clone(),
            deposit_enabled: self.deposit_enabled,
            deposit_reason: self.deposit_reason.clone(),
            withdraw_enabled: self.withdraw_enabled,
            withdraw_reason: self.withdraw_reason.clone(),
        }
    }
}

impl PartialEq for NetworkStatus {
    fn eq(&self, other: &Self) -> (same: bool) {
        self.network_name == other.network_name
            && self.deposit_enabled == other.deposit_enabled
            && self.deposit_reason == other.deposit_reason
            && self.withdraw_enabled == other.withdraw_enabled
            && self.withdraw_reason == other.withdraw_reason
    }
}

impl vstd::std_specs::cmp::PartialEqSpecImpl for NetworkStatus {
    open spec fn obeys_eq_spec() -> bool {
        true
    }

    open spec fn eq_spec(&self, other: &Self) -> bool {
        self@ == other@
    }
}

impl Eq for NetworkStatus {

}

/// The values of a sequence of statuses, in order.
pub open spec fn status_views(statuses: Seq<NetworkStatus>) -> Seq<NetworkStatusView> {
    Seq::new(statuses.len(), |i: int| statuses[i]@)
}

/// No network name occurs twice in `networks`.
pub open spec fn distinct_names(networks: Seq<NetworkStatusView>) -> bool {
    forall|i: int, j: int|
        0 <= i < j < networks.len() ==> networks[i].network_name != networks[j].network_name
}

/// What building a snapshot from `networks` comes to: the networks as they
/// are, unless a name occurs twice.
pub open spec fn snapshot_of_networks(networks: Seq<NetworkStatusView>) -> Result<
    Seq<NetworkStatusView>,
    FetchError,
> {
    if distinct_names(networks) {
        Ok(networks)
    } else {
        Err(FetchError::Parse)
    }
}

/// `built` is the snapshot or the error that `outcome` names.
pub open spec fn built_as(
    built: Result<StatusSnapshot, FetchError>,
    outcome: Result<Seq<NetworkStatusView>, FetchError>,
) -> bool {
    match built {
        Ok(snapshot) => outcome == Ok::<Seq<NetworkStatusView>, FetchError>(snapshot@),
        Err(error) => outcome == Err::<Seq<NetworkStatusView>, FetchError>(error),
    }
}

/// One fetched view of the asset: its networks in the order the source gave
/// them.
///
/// A snapshot is never changed after it is built, and no network name occurs
/// twice in it.
#[derive(Debug)]
pub struct StatusSnapshot {
    networks: Vec<NetworkStatus>,
}

impl View for StatusSnapshot {
    type V = Seq<NetworkStatusView>;

    closed spec fn view(&self) -> Seq<NetworkStatusView> {
        status_views(self.networks@)
    }
}

/// Whether some name occurs twice among `networks`.
fn has_repeated_name(networks: &Vec<NetworkStatus>) -> (repeated: bool)
    ensures
        repeated == !distinct_names(status_views(networks@)),
{
    let ghost views = status_views(networks@);
    let mut j: usize = 0;
    while j < networks.len()
        invariant
            j <= networks.len(),
            views == status_views(networks@),
            forall|a: int, b: int|
                0 <= a < b < j ==> views[a].network_name != views[b].network_name,
        decreases networks.len() - j,
    {
        let mut i: usize = 0;
        while i < j
            invariant
                i <= j < networks.len(),
                views == status_views(networks@),
                forall|a: int| 0 <= a < i ==> views[a].network_name != views[j as int].network_name,
            decreases j - i,
        {
            if networks[i].network_name == networks[j].network_name {
                assert(views[i as int].network_name == views[j as int].network_name);
                return true;
            }
            i += 1;
        }
        j += 1;
    }
    false
}

impl StatusSnapshot {
    #[verifier::type_invariant]
    spec fn names_are_distinct(self) -> bool {
        distinct_names(self@)
    }

    /// The snapshot of an asset that no network carries.
    pub fn new() -> (snapshot: StatusSnapshot)
        ensures
            snapshot@ == Seq::<NetworkStatusView>::empty(),
    {
        StatusSnapshot { networks: Vec::new() }
    }

    /// The snapshot that holds `networks` in the given order.
    ///
    /// Fails, with [`FetchError::Parse`], if and only if a network name occurs
    /// twice.
    pub fn from_networks(networks: Vec<NetworkStatus>) -> (built: Result<StatusSnapshot, FetchError>)
        ensures
            built_as(built, snapshot_of_networks(status_views(networks@))),
    {
        if has_repeated_name(&networks) {
            Err(FetchError::Parse)
        } else {
            Ok(StatusSnapshot { networks })
        }
    }

    /// How many networks the snapshot lists.
    pub fn len(&self) -> (count: usize)
        ensures
            count == self@.len(),
    {
        self.networks.len()
    }

    /// Whether the snapshot lists no network.
    pub fn is_empty(&self) -> (empty: bool)
        ensures
            empty == (self@.len() == 0),
    {
        self.networks.len() == 0
    }

    /// The networks, in the order of the source.
    pub fn networks(&self) -> (listed: &Vec<NetworkStatus>)
        ensures
            status_views(listed@) == self@,
            distinct_names(self@),
    {
        proof {
            use_type_invariant(self);
        }
        &self.networks
    }

    /// The status at position `index`.
    pub fn get(&self, index: usize) -> (found: Option<&NetworkStatus>)
        ensures
            index < self@.len() ==> found is Some && found->Some_0@ == self@[index as int],
            index >= self@.len() ==> found is None,
    {
        if index < self.networks.len() {
            Some(&self.networks[index])
        } else {
            None
        }
    }
}

impl Clone for StatusSnapshot {
    fn clone(&self) -> (copy: Self)
        ensures
            copy@ == self@,
    {
        proof {
            use_type_invariant(self);
        }
        let mut networks: Vec<NetworkStatus> = Vec::new();
        let mut i: usize = 0;
        while i < self.networks.len()
            invariant
                i <= self.networks.len(),
                networks.len() == i,
                forall|k: int| 0 <= k < i ==> networks@[k]@ == self.networks@[k]@,
            decreases self.networks.len() - i,
        {
            networks.push(self.networks[i].clone());
            i += 1;
        }
        assert(status_views(networks@) =~= self@);
        StatusSnapshot { networks }
    }
}

impl PartialEq for StatusSnapshot {
    fn eq(&self, other: &Self) -> (same: bool) {
        if self.networks.len() != other.networks.len() {
            assert(self@.len() != other@.len());
            return false;
        }
        let mut i: usize = 0;
        while i < self.networks.len()
            invariant
                i <= self.networks.len(),
                self.networks.len() == other.networks.len(),
                forall|k: int| 0 <= k < i ==> self@[k] == other@[k],
            decreases self.networks.len() - i,
        {
            if self.networks[i] != other.networks[i] {
                assert(self@[i as int] != other@[i as int]);
                return false;
            }
            i += 1;
        }
        assert(self@ =~= other@);
        true
    }
}

impl vstd::std_specs::cmp::PartialEqSpecImpl for StatusSnapshot {
    open spec fn obeys_eq_spec() -> bool {
        true
    }

    open spec fn eq_spec(&self, other: &Self) -> bool {
        self@ == other@
    }
}

impl Eq for StatusSnapshot {

}

} // verus!
