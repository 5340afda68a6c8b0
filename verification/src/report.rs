//! What a notification says: the full status of a snapshot, and the changes
//! between two snapshots.

use crate::snapshot::{NetworkStatus, NetworkStatusView, StatusSnapshot, status_views};
use crate::text::{join, join_with, optional_text, texts};
use vstd::prelude::*;
use vstd::string::StringExecFns;

verus! {

/// The deposit line of a network's block.
pub open spec fn deposit_line(network: NetworkStatusView) -> Seq<char> {
    if network.deposit_enabled {
        "Deposit available"@
    } else {
        "Deposit suspended: "@ + network.deposit_reason
    }
}

/// The withdraw line of a network's block.
pub open spec fn withdraw_line(network: NetworkStatusView) -> Seq<char> {
    if network.withdraw_enabled {
        "Withdraw available"@
    } else {
        "Withdraw suspended: "@ + network.withdraw_reason
    }
}

/// The three lines that state one network in full: its name, its deposit
/// status and its withdraw status, each taken from `network` as it stands.
pub open spec fn network_block(network: NetworkStatusView) -> Seq<char> {
    "Network: "@ + network.network_name + "\n"@ + deposit_line(network) + "\n"@ + withdraw_line(
        network,
    )
}

/// The blocks of all networks of a snapshot, in the snapshot's order.
pub open spec fn network_blocks(snapshot: Seq<NetworkStatusView>) -> Seq<Seq<char>> {
    Seq::new(snapshot.len(), |i: int| network_block(snapshot[i]))
}

/// The full report on a snapshot: one block per network, in the snapshot's
/// order, with an empty line between neighbouring blocks.
pub open spec fn full_report(snapshot: Seq<NetworkStatusView>) -> Seq<char> {
    join_with(network_blocks(snapshot), "\n\n"@)
}

/// The line that reports that `field` became available or unavailable.
pub open spec fn transition_line(field: Seq<char>, enabled: bool) -> Seq<char> {
    if enabled {
        field + " [RESUMED]"@
    } else {
        field + " [SUSPENDED]"@
    }
}

/// The lines for the flags that differ between two states of one network:
/// the deposit line first, then the withdraw line.
pub open spec fn network_changes(before: NetworkStatusView, after: NetworkStatusView) -> Seq<
    Seq<char>,
> {
    let deposit = if before.deposit_enabled != after.deposit_enabled {
        seq![transition_line("Deposit"@, after.deposit_enabled)]
    } else {
        Seq::empty()
    };
    let withdraw = if before.withdraw_enabled != after.withdraw_enabled {
        seq![transition_line("Withdraw"@, after.withdraw_enabled)]
    } else {
        Seq::empty()
    };
    deposit + withdraw
}

/// Two snapshots list the same networks in the same order.
pub open spec fn same_networks(
    previous: Seq<NetworkStatusView>,
    current: Seq<NetworkStatusView>,
) -> bool {
    &&& previous.len() == current.len()
    &&& forall|i: int|
        0 <= i < previous.len() ==> previous[i].network_name == current[i].network_name
}

/// The change lines of the first `count` networks of two snapshots that list
/// the same networks.
pub open spec fn changes_among(
    previous: Seq<NetworkStatusView>,
    current: Seq<NetworkStatusView>,
    count: nat,
) -> Seq<Seq<char>>
    decreases count,
{
    if count == 0 {
        Seq::empty()
    } else {
        changes_among(previous, current, (count - 1) as nat) + network_changes(
            previous[count - 1],
            current[count - 1],
        )
    }
}

/// The lines that report which flags changed from `previous` to `current`.
///
/// Flags can be compared only where both snapshots list the same networks in
/// the same order; otherwise there are no change lines.
pub open spec fn change_lines(
    previous: Seq<NetworkStatusView>,
    current: Seq<NetworkStatusView>,
) -> Seq<Seq<char>> {
    if same_networks(previous, current) {
        changes_among(previous, current, current.len())
    } else {
        Seq::empty()
    }
}

/// The message that a comparison calls for, if any.
///
/// Without a previous snapshot the full report is due. Equal snapshots call
/// for nothing. Unequal snapshots call for their change lines, one per line,
/// or, where no flag can be reported as changed (a reason was reworded, or the
/// network list itself differs), for the full report again.
pub open spec fn diff_message(
    previous: Option<Seq<NetworkStatusView>>,
    current: Seq<NetworkStatusView>,
) -> Option<Seq<char>> {
    match previous {
        None => Some(full_report(current)),
        Some(before) => if before == current {
            None
        } else if change_lines(before, current).len() == 0 {
            Some(full_report(current))
        } else {
            Some(join_with(change_lines(before, current), "\n"@))
        },
    }
}

impl NetworkStatus {
    /// The block that states this network in full.
    pub fn render(&self) -> (block: String)
        ensures
            block@ == network_block(self@),
    {
        let mut block = String::from_str("Network: ");
        block.append(self.network_name.as_str());
        block.append("\n");
        if self.deposit_enabled {
            block.append("Deposit available");
        } else {
            block.append("Deposit suspended: ");
            block.append(self.deposit_reason.as_str());
        }
        block.append("\n");
        if self.withdraw_enabled {
            block.append("Withdraw available");
        } else {
            block.append("Withdraw suspended: ");
            block.append(self.withdraw_reason.as_str());
        }
        block
    }
}

impl StatusSnapshot {
    /// The full report on this snapshot.
    pub fn status(&self) -> (report: String)
        ensures
            report@ == full_report(self@),
    {
        let networks = self.networks();
        let mut blocks: Vec<String> = Vec::new();
        let mut i: usize = 0;
        while i < networks.len()
            invariant
                i <= networks.len(),
                status_views(networks@) == self@,
                blocks.len() == i,
                forall|k: int| 0 <= k < i ==> blocks@[k]@ == network_block(self@[k]),
            decreases networks.len() - i,
        {
            blocks.push(networks[i].render());
            i += 1;
        }
        assert(texts(blocks@) =~= network_blocks(self@));
        join(&blocks, "\n\n")
    }
}

/// The line that reports that `field` became available or unavailable.
fn transition(field: &str, enabled: bool) -> (line: String)
    ensures
        line@ == transition_line(field@, enabled),
{
    let mut line = String::from_str(field);
    if enabled {
        line.append(" [RESUMED]");
    } else {
        line.append(" [SUSPENDED]");
    }
    line
}

/// Whether two lists of networks carry the same names in the same order.
fn names_agree(previous: &Vec<NetworkStatus>, current: &Vec<NetworkStatus>) -> (agree: bool)
    ensures
        agree == same_networks(status_views(previous@), status_views(current@)),
{
    if previous.len() != current.len() {
        return false;
    }
    let mut i: usize = 0;
    while i < previous.len()
        invariant
            i <= previous.len(),
            previous.len() == current.len(),
            forall|k: int|
                0 <= k < i ==> status_views(previous@)[k].network_name == status_views(
                    current@,
                )[k].network_name,
        decreases previous.len() - i,
    {
        if previous[i].network_name != current[i].network_name {
            assert(status_views(previous@)[i as int].network_name != status_views(
                current@,
            )[i as int].network_name);
            return false;
        }
        i += 1;
    }
    true
}

/// The change lines between two snapshots, each as a string.
fn changed_flags(previous: &StatusSnapshot, current: &StatusSnapshot) -> (lines: Vec<String>)
    ensures
        texts(lines@) == change_lines(previous@, current@),
{
    let before = previous.networks();
    let after = current.networks();
    let mut lines: Vec<String> = Vec::new();
    if !names_agree(before, after) {
        return lines;
    }
    let mut i: usize = 0;
    while i < after.len()
        invariant
            i <= after.len(),
            before.len() == after.len(),
            status_views(before@) == previous@,
            status_views(after@) == current@,
            texts(lines@) == changes_among(previous@, current@, i as nat),
        decreases after.len() - i,
    {
        if before[i].deposit_enabled != after[i].deposit_enabled {
            lines.push(transition("Deposit", after[i].deposit_enabled));
        }
        if before[i].withdraw_enabled != after[i].withdraw_enabled {
            lines.push(transition("Withdraw", after[i].withdraw_enabled));
        }
        i += 1;
    }
    lines
}

/// The value of an optional snapshot.
pub open spec fn previous_view(previous: Option<&StatusSnapshot>) -> Option<
    Seq<NetworkStatusView>,
> {
    match previous {
        None => None,
        Some(snapshot) => Some(snapshot@),
    }
}

/// Compares the snapshot that subscribers were last told about with a fresh
/// one, and composes the notification that the comparison calls for.
///
/// `previous` is `None` for the first snapshot of a run. Equal snapshots give
/// `None`; in every other case there is a message.
pub fn diff(previous: Option<&StatusSnapshot>, current: &StatusSnapshot) -> (message: Option<String>)
    ensures
        optional_text(message) == diff_message(previous_view(previous), current@),
        previous_view(previous) == Some(current@) ==> message is None,
        previous_view(previous) != Some(current@) ==> message is Some,
{
    match previous {
        None => Some(current.status()),
        Some(before) => {
            if *before == *current {
                None
            } else {
                let lines = changed_flags(before, current);
                if lines.len() == 0 {
                    Some(current.status())
                } else {
                    Some(join(&lines, "\n"))
                }
            }
        },
    }
}

/// A snapshot compared with itself calls for no message.
pub proof fn lemma_unchanged_snapshot_is_silent(snapshot: Seq<NetworkStatusView>)
    ensures
        diff_message(Some(snapshot), snapshot) is None,
{
}

/// The first comparison of a run reports every network: the message is the
/// blocks of the snapshot joined by empty lines, there is one block per
/// network, in the snapshot's order, and each block spells out the name, the
/// two flags and, where a flag is off, its reason, as the snapshot holds them.
pub proof fn lemma_startup_report_states_every_network(snapshot: Seq<NetworkStatusView>)
    ensures
        diff_message(None, snapshot) == Some(join_with(network_blocks(snapshot), "\n\n"@)),
        network_blocks(snapshot).len() == snapshot.len(),
        forall|i: int|
            0 <= i < snapshot.len() ==> #[trigger] network_blocks(snapshot)[i] == "Network: "@
                + snapshot[i].network_name + "\n"@ + (if snapshot[i].deposit_enabled {
                "Deposit available"@
            } else {
                "Deposit suspended: "@ + snapshot[i].deposit_reason
            }) + "\n"@ + (if snapshot[i].withdraw_enabled {
                "Withdraw available"@
            } else {
                "Withdraw suspended: "@ + snapshot[i].withdraw_reason
            }),
{
}

/// Adding a network to a snapshot adds its block at the end of the report,
/// after an empty line if the report already had a block.
pub proof fn lemma_report_grows_by_block(
    snapshot: Seq<NetworkStatusView>,
    network: NetworkStatusView,
)
    ensures
        full_report(snapshot.push(network)) == if snapshot.len() == 0 {
            network_block(network)
        } else {
            full_report(snapshot) + "\n\n"@ + network_block(network)
        },
{
    assert(network_blocks(snapshot.push(network)).drop_last() =~= network_blocks(snapshot));
}

/// Networks that are equal in both snapshots contribute no change line.
proof fn lemma_changes_skip_equal_networks(
    previous: Seq<NetworkStatusView>,
    current: Seq<NetworkStatusView>,
    changed: int,
    count: nat,
)
    requires
        previous.len() == current.len(),
        0 <= changed < current.len(),
        count <= current.len(),
        forall|j: int| 0 <= j < current.len() && j != changed ==> previous[j] == current[j],
    ensures
        changes_among(previous, current, count) == if count <= changed {
            Seq::<Seq<char>>::empty()
        } else {
            network_changes(previous[changed], current[changed])
        },
    decreases count,
{
    if count > 0 {
        lemma_changes_skip_equal_networks(previous, current, changed, (count - 1) as nat);
    }
}

/// Where two snapshots differ in the withdraw flag of exactly one network,
/// the message is exactly the one line for that transition.
///
/// The network at `changed` keeps its name and its deposit flag and flips its
/// withdraw flag (its reasons may be reworded with it); every other network is
/// equal in both snapshots.
pub proof fn lemma_single_withdraw_change_is_one_line(
    previous: Seq<NetworkStatusView>,
    current: Seq<NetworkStatusView>,
    changed: int,
)
    requires
        previous.len() == current.len(),
        0 <= changed < current.len(),
        forall|j: int| 0 <= j < current.len() && j != changed ==> previous[j] == current[j],
        previous[changed].network_name == current[changed].network_name,
        previous[changed].deposit_enabled == current[changed].deposit_enabled,
        previous[changed].withdraw_enabled != current[changed].withdraw_enabled,
    ensures
        diff_message(Some(previous), current) == Some(
            if current[changed].withdraw_enabled {
                "Withdraw [RESUMED]"@
            } else {
                "Withdraw [SUSPENDED]"@
            },
        ),
{
    reveal_strlit("Withdraw");
    reveal_strlit(" [RESUMED]");
    reveal_strlit(" [SUSPENDED]");
    reveal_strlit("Withdraw [RESUMED]");
    reveal_strlit("Withdraw [SUSPENDED]");
    lemma_changes_skip_equal_networks(previous, current, changed, current.len());
}

} // verus!
