//! From the exchange's asset document to a snapshot.
//!
//! The document is a JSON array with one object per coin. The object of the
//! monitored coin holds a `networkList`, and each of its entries holds the
//! network's name, two flags and two free-text reasons.

use crate::error::FetchError;
use crate::json::{json_flag, json_items, json_member, json_text, member};
use crate::snapshot::{
    NetworkStatus, NetworkStatusView, StatusSnapshot, built_as, distinct_names,
    snapshot_of_networks, status_views,
};
use crate::text::optional_text;
use serde_json::Value;
use vstd::prelude::*;
use vstd::string::StringExecFns;

verus! {

/// Mathematical value of a [`NetworkEntry`].
pub struct NetworkEntryView {
    pub network: Option<Seq<char>>,
    pub deposit_enable: Option<bool>,
    pub deposit_desc: Option<Seq<char>>,
    pub withdraw_enable: Option<bool>,
    pub withdraw_desc: Option<Seq<char>>,
}

/// One entry of a network list as it was found in the document: for each
/// field its value, or `None` where the field is missing or of another type.
#[derive(Debug)]
pub struct NetworkEntry {
    pub network: Option<String>,
    pub deposit_enable: Option<bool>,
    pub deposit_desc: Option<String>,
    pub withdraw_enable: Option<bool>,
    pub withdraw_desc: Option<String>,
}

impl View for NetworkEntry {
    type V = NetworkEntryView;

    open spec fn view(&self) -> NetworkEntryView {
        NetworkEntryView {
            network: optional_text(self.network),
            deposit_enable: self.deposit_enable,
            deposit_desc: optional_text(self.deposit_desc),
            withdraw_enable: self.withdraw_enable,
            withdraw_desc: optional_text(self.withdraw_desc),
        }
    }
}

/// The values of a sequence of entries, in order.
pub open spec fn entry_views(entries: Seq<NetworkEntry>) -> Seq<NetworkEntryView> {
    Seq::new(entries.len(), |i: int| entries[i]@)
}

/// An entry can be read as a status: its name and both flags are there.
pub open spec fn entry_complete(entry: NetworkEntryView) -> bool {
    entry.network is Some && entry.deposit_enable is Some && entry.withdraw_enable is Some
}

/// A reason as the snapshot holds it: the text found, or nothing.
pub open spec fn reason_text(found: Option<Seq<char>>) -> Seq<char> {
    match found {
        Some(text) => text,
        None => Seq::empty(),
    }
}

/// The status that a complete entry stands for.
pub open spec fn entry_status(entry: NetworkEntryView) -> NetworkStatusView {
    NetworkStatusView {
        network_name: entry.network->Some_0,
        deposit_enabled: entry.deposit_enable->Some_0,
        deposit_reason: reason_text(entry.deposit_desc),
        withdraw_enabled: entry.withdraw_enable->Some_0,
        withdraw_reason: reason_text(entry.withdraw_desc),
    }
}

/// The statuses that a list of entries stands for, in order.
pub open spec fn entry_statuses(entries: Seq<NetworkEntryView>) -> Seq<NetworkStatusView> {
    Seq::new(entries.len(), |i: int| entry_status(entries[i]))
}

/// What reading a network list as a snapshot comes to.
///
/// One entry without a name or without a flag spoils the whole list, and so
/// does a name that occurs twice.
pub open spec fn snapshot_of_entries(entries: Seq<NetworkEntryView>) -> Result<
    Seq<NetworkStatusView>,
    FetchError,
> {
    if forall|i: int| 0 <= i < entries.len() ==> entry_complete(#[trigger] entries[i]) {
        snapshot_of_networks(entry_statuses(entries))
    } else {
        Err(FetchError::Parse)
    }
}

/// One entry that cannot be read spoils the whole list: no snapshot is built
/// from the entries that can.
pub proof fn lemma_one_bad_entry_spoils_the_list(entries: Seq<NetworkEntryView>, bad: int)
    requires
        0 <= bad < entries.len(),
        !entry_complete(entries[bad]),
    ensures
        snapshot_of_entries(entries) == Err::<Seq<NetworkStatusView>, FetchError>(
            FetchError::Parse,
        ),
{
}

/// A snapshot that is built from a list holds one network per entry, in the
/// list's order, and no name twice.
pub proof fn lemma_built_snapshot_is_sound(entries: Seq<NetworkEntryView>)
    requires
        snapshot_of_entries(entries) is Ok,
    ensures
        snapshot_of_entries(entries)->Ok_0 == entry_statuses(entries),
        snapshot_of_entries(entries)->Ok_0.len() == entries.len(),
        distinct_names(snapshot_of_entries(entries)->Ok_0),
{
}

/// A copy of a reason, or the empty string where none was found.
fn reason_of(found: &Option<String>) -> (reason: String)
    ensures
        reason@ == reason_text(optional_text(*found)),
{
    match found {
        Some(text) => text.clone(),
        None => String::new(),
    }
}

impl StatusSnapshot {
    /// Reads a network list as a snapshot, in the list's order.
    ///
    /// Fails, with [`FetchError::Parse`], if and only if an entry lacks its
    /// name or one of its flags, or a name occurs twice. A missing reason is
    /// read as the empty text.
    pub fn from_entries(entries: &Vec<NetworkEntry>) -> (built: Result<StatusSnapshot, FetchError>)
        ensures
            built_as(built, snapshot_of_entries(entry_views(entries@))),
    {
        let ghost views = entry_views(entries@);
        let mut networks: Vec<NetworkStatus> = Vec::new();
        let mut i: usize = 0;
        while i < entries.len()
            invariant
                i <= entries.len(),
                views == entry_views(entries@),
                networks.len() == i,
                forall|k: int| 0 <= k < i ==> entry_complete(#[trigger] views[k]),
                forall|k: int| 0 <= k < i ==> networks@[k]@ == entry_status(views[k]),
            decreases entries.len() - i,
        {
            let entry = &entries[i];
            match (&entry.network, entry.deposit_enable, entry.withdraw_enable) {
                (Some(name), Some(deposit), Some(withdraw)) => {
                    networks.push(
                        NetworkStatus {
                            network_name: name.clone(),
                            deposit_enabled: deposit,
                            deposit_reason: reason_of(&entry.deposit_desc),
                            withdraw_enabled: withdraw,
                            withdraw_reason: reason_of(&entry.withdraw_desc),
                        },
                    );
                },
                _ => {
                    assert(!entry_complete(views[i as int]));
                    return Err(FetchError::Parse);
                },
            }
            i += 1;
        }
        assert(status_views(networks@) =~= entry_statuses(views));
        StatusSnapshot::from_networks(networks)
    }
}

/// The coin whose networks are watched.
pub const MONITORED_COIN: &'static str = "AVAX";

/// Milliseconds that the exchange may take over one request.
pub const RECV_WINDOW_MILLIS: usize = 10000;

/// `coin` is the name of the monitored coin, as a string.
pub open spec fn is_monitored(coin: Option<Seq<char>>) -> bool {
    coin == Some(MONITORED_COIN@)
}

/// The position of the first monitored coin at or after position `from`.
pub open spec fn monitored_position_from(coins: Seq<Option<Seq<char>>>, from: int) -> Option<int>
    decreases coins.len() - from,
{
    if from < 0 || from >= coins.len() {
        None
    } else if is_monitored(coins[from]) {
        Some(from)
    } else {
        monitored_position_from(coins, from + 1)
    }
}

/// The position of the object that stands for the monitored coin, given the
/// `coin` of every object of the document: the first that names it.
pub open spec fn monitored_position(coins: Seq<Option<Seq<char>>>) -> Option<int> {
    monitored_position_from(coins, 0)
}

/// The monitored coin is found where it is first named, and not found only
/// where no object names it.
pub proof fn lemma_monitored_position_is_first(coins: Seq<Option<Seq<char>>>, from: int)
    requires
        0 <= from,
    ensures
        match monitored_position_from(coins, from) {
            Some(at) => {
                &&& from <= at < coins.len()
                &&& is_monitored(coins[at])
                &&& forall|k: int| from <= k < at ==> !is_monitored(#[trigger] coins[k])
            },
            None => forall|k: int| from <= k < coins.len() ==> !is_monitored(#[trigger] coins[k]),
        },
    decreases coins.len() - from,
{
    if from < coins.len() && !is_monitored(coins[from]) {
        lemma_monitored_position_is_first(coins, from + 1);
    }
}

/// The characters of each of a sequence of optional strings.
pub open spec fn coin_views(coins: Seq<Option<String>>) -> Seq<Option<Seq<char>>> {
    Seq::new(coins.len(), |i: int| optional_text(coins[i]))
}

/// Finds the object that stands for the monitored coin, given the `coin` of
/// every object of the document.
pub fn find_monitored_coin(coins: &Vec<Option<String>>) -> (found: Option<usize>)
    ensures
        match found {
            Some(at) => monitored_position(coin_views(coins@)) == Some(at as int),
            None => monitored_position(coin_views(coins@)) is None,
        },
{
    let ghost views = coin_views(coins@);
    let mut i: usize = 0;
    while i < coins.len()
        invariant
            i <= coins.len(),
            views == coin_views(coins@),
            monitored_position(views) == monitored_position_from(views, i as int),
        decreases coins.len() - i,
    {
        match &coins[i] {
            Some(coin) => {
                if *coin == String::from_str(MONITORED_COIN) {
                    return Some(i);
                }
            },
            None => {},
        }
        i += 1;
    }
    None
}

/// What reading the network list of the monitored coin comes to: the list
/// read as a snapshot, or a parse error where the object holds no list.
pub open spec fn snapshot_of_list(list: Option<Seq<NetworkEntryView>>) -> Result<
    Seq<NetworkStatusView>,
    FetchError,
> {
    match list {
        Some(entries) => snapshot_of_entries(entries),
        None => Err(FetchError::Parse),
    }
}

/// The values of an optional list of entries.
pub open spec fn list_view(list: Option<Vec<NetworkEntry>>) -> Option<Seq<NetworkEntryView>> {
    match list {
        Some(entries) => Some(entry_views(entries@)),
        None => None,
    }
}

impl StatusSnapshot {
    /// Reads what was found as the network list of the monitored coin.
    ///
    /// `None` stands for an object without a list, which is
    /// [`FetchError::Parse`]; a list is read by [`StatusSnapshot::from_entries`].
    pub fn from_network_list(list: &Option<Vec<NetworkEntry>>) -> (built: Result<
        StatusSnapshot,
        FetchError,
    >)
        ensures
            built_as(built, snapshot_of_list(list_view(*list))),
    {
        match list {
            Some(entries) => StatusSnapshot::from_entries(entries),
            None => Err(FetchError::Parse),
        }
    }
}

/// What the document holds for one entry of a network list.
pub open spec fn entry_of(value: Value) -> NetworkEntryView {
    NetworkEntryView {
        network: json_text(json_member(value, "network"@)),
        deposit_enable: json_flag(json_member(value, "depositEnable"@)),
        deposit_desc: json_text(json_member(value, "depositDesc"@)),
        withdraw_enable: json_flag(json_member(value, "withdrawEnable"@)),
        withdraw_desc: json_text(json_member(value, "withdrawDesc"@)),
    }
}

/// What the document holds for a whole network list.
pub open spec fn entries_of(items: Seq<Value>) -> Seq<NetworkEntryView> {
    Seq::new(items.len(), |i: int| entry_of(items[i]))
}

/// What the document holds as the network list of `asset`, if it holds one.
pub open spec fn network_list_of(asset: Value) -> Option<Seq<NetworkEntryView>> {
    match json_items(json_member(asset, "networkList"@)) {
        Some(items) => Some(entries_of(items)),
        None => None,
    }
}

/// What the document holds as the `coin` of each of its objects.
pub open spec fn coins_of(document: Seq<Value>) -> Seq<Option<Seq<char>>> {
    Seq::new(document.len(), |i: int| json_text(json_member(document[i], "coin"@)))
}

/// What reading the whole document comes to: the snapshot of the first object
/// that names the monitored coin, or [`FetchError::AssetNotFound`] where none
/// does.
pub open spec fn snapshot_of_document(document: Seq<Value>) -> Result<
    Seq<NetworkStatusView>,
    FetchError,
> {
    match monitored_position(coins_of(document)) {
        Some(at) => snapshot_of_list(network_list_of(document[at])),
        None => Err(FetchError::AssetNotFound),
    }
}

/// The text of a JSON string, copied out.
fn text_of(value: &Value) -> (text: Option<String>)
    ensures
        optional_text(text) == json_text(*value),
{
    match value.as_str() {
        Some(slice) => Some(String::from_str(slice)),
        None => None,
    }
}

/// Reads the five fields of one entry of a network list.
pub fn read_entry(value: &Value) -> (entry: NetworkEntry)
    ensures
        entry@ == entry_of(*value),
{
    NetworkEntry {
        network: text_of(member(value, "network")),
        deposit_enable: member(value, "depositEnable").as_bool(),
        deposit_desc: text_of(member(value, "depositDesc")),
        withdraw_enable: member(value, "withdrawEnable").as_bool(),
        withdraw_desc: text_of(member(value, "withdrawDesc")),
    }
}

/// Reads every entry of a network list, in order.
pub fn read_entries(items: &Vec<Value>) -> (entries: Vec<NetworkEntry>)
    ensures
        entry_views(entries@) == entries_of(items@),
{
    let mut entries: Vec<NetworkEntry> = Vec::new();
    let mut i: usize = 0;
    while i < items.len()
        invariant
            i <= items.len(),
            entries.len() == i,
            forall|k: int| 0 <= k < i ==> entries@[k]@ == entry_of(items@[k]),
        decreases items.len() - i,
    {
        entries.push(read_entry(&items[i]));
        i += 1;
    }
    entries
}

/// Reads the network list of one object of the document, if it holds one.
pub fn read_network_list(asset: &Value) -> (list: Option<Vec<NetworkEntry>>)
    ensures
        list_view(list) == network_list_of(*asset),
{
    match member(asset, "networkList").as_array() {
        Some(items) => Some(read_entries(items)),
        None => None,
    }
}

/// Reads the `coin` of every object of the document, in order.
pub fn read_coins(document: &Vec<Value>) -> (coins: Vec<Option<String>>)
    ensures
        coin_views(coins@) == coins_of(document@),
{
    let mut coins: Vec<Option<String>> = Vec::new();
    let mut i: usize = 0;
    while i < document.len()
        invariant
            i <= document.len(),
            coins.len() == i,
            forall|k: int|
                0 <= k < i ==> optional_text(coins@[k]) == json_text(
                    json_member(document@[k], "coin"@),
                ),
        decreases document.len() - i,
    {
        coins.push(text_of(member(&document[i], "coin")));
        i += 1;
    }
    coins
}

/// Builds the snapshot from the asset document that the exchange returned.
///
/// The first object whose `coin` is [`MONITORED_COIN`] decides: its
/// `networkList` is read entry by entry, and nothing is returned unless all of
/// it can be read. No such object is [`FetchError::AssetNotFound`]; a missing
/// list, an entry without name or flag, or a repeated name is
/// [`FetchError::Parse`].
pub fn snapshot_from_document(document: &Vec<Value>) -> (built: Result<StatusSnapshot, FetchError>)
    ensures
        built_as(built, snapshot_of_document(document@)),
{
    let coins = read_coins(document);
    match find_monitored_coin(&coins) {
        Some(at) => {
            proof {
                lemma_monitored_position_is_first(coins_of(document@), 0);
            }
            let list = read_network_list(&document[at]);
            StatusSnapshot::from_network_list(&list)
        },
        None => Err(FetchError::AssetNotFound),
    }
}

/// What one fetch comes to, given what the exchange client handed back:
/// `None` stands for a request that failed before any document arrived.
pub open spec fn fetch_of(response: Option<Seq<Value>>) -> Result<
    Seq<NetworkStatusView>,
    FetchError,
> {
    match response {
        Some(document) => snapshot_of_document(document),
        None => Err(FetchError::Transport),
    }
}

/// The elements of an optional document.
pub open spec fn response_view(response: Option<&Vec<Value>>) -> Option<Seq<Value>> {
    match response {
        Some(document) => Some(document@),
        None => None,
    }
}

/// Classifies the answer to one fetch: a request that brought no document is
/// [`FetchError::Transport`], and a document is read by
/// [`snapshot_from_document`].
pub fn fetch_outcome(response: Option<&Vec<Value>>) -> (built: Result<StatusSnapshot, FetchError>)
    ensures
        built_as(built, fetch_of(response_view(response))),
{
    match response {
        Some(document) => snapshot_from_document(document),
        None => Err(FetchError::Transport),
    }
}

} // verus!
