//! The connection settings of the access point, the request that activates
//! it, and the wait for its first address.

use crate::address::Ipv4Address;
use crate::device::reads_wifi;
use crate::device::select_wifi_device;
use crate::error::SetupError;
use vstd::prelude::*;
use vstd::string::*;
use vstd::utf8::encode_utf8;

verus! {

/// A group of connection settings.
#[derive(Clone, Copy, Debug, PartialEq, Eq, Structural)]
pub enum Group {
    /// The wireless settings.
    Wireless,
    /// The IPv4 settings.
    Ipv4,
    /// The IPv6 settings.
    Ipv6,
    /// The settings of the connection as a whole.
    Connection,
}

/// The value of one setting.
#[derive(Debug, PartialEq, Eq)]
pub enum SettingValue {
    /// Raw bytes.
    Bytes(Vec<u8>),
    /// A text.
    Text(String),
    /// A switch.
    Flag(bool),
}

/// One setting: a key and its value.
#[derive(Debug, PartialEq, Eq)]
pub struct Setting {
    pub key: String,
    pub value: SettingValue,
}

/// A group with its settings.
#[derive(Debug, PartialEq, Eq)]
pub struct SettingGroup {
    pub group: Group,
    pub settings: Vec<Setting>,
}

/// The settings of the access-point connection: each group once, each key
/// once within its group. Built whole and not changed afterwards.
#[derive(Debug, PartialEq, Eq)]
pub struct AccessPointSettings {
    pub groups: Vec<SettingGroup>,
}

/// What is asked of the network manager to bring the access point up.
#[derive(Debug, PartialEq, Eq)]
pub struct ActivationRequest {
    /// The position of the chosen radio among the devices scanned.
    pub device: usize,
    /// The settings of the connection to add.
    pub settings: AccessPointSettings,
    /// The object path handed over as the specific object.
    pub specific_object: String,
    /// The options of the request.
    pub options: Vec<Setting>,
}

/// What a setting's value holds.
pub enum ValueModel {
    Bytes(Seq<u8>),
    Text(Seq<char>),
    Flag(bool),
}

/// What a setting holds.
pub struct SettingModel {
    pub key: Seq<char>,
    pub value: ValueModel,
}

/// What a group holds.
pub struct GroupModel {
    pub group: Group,
    pub settings: Seq<SettingModel>,
}

impl Group {
    /// The name under which the network manager knows the group.
    pub open spec fn section_text(self) -> Seq<char> {
        match self {
            Group::Wireless => "802-11-wireless"@,
            Group::Ipv4 => "ipv4"@,
            Group::Ipv6 => "ipv6"@,
            Group::Connection => "connection"@,
        }
    }

    /// The name under which the group is sent to the network manager.
    pub fn section(&self) -> (name: &'static str)
        ensures
            name@ == self.section_text(),
    {
        match self {
            Group::Wireless => "802-11-wireless",
            Group::Ipv4 => "ipv4",
            Group::Ipv6 => "ipv6",
            Group::Connection => "connection",
        }
    }
}

impl View for SettingValue {
    type V = ValueModel;

    open spec fn view(&self) -> ValueModel {
        match self {
            SettingValue::Bytes(bytes) => ValueModel::Bytes(bytes@),
            SettingValue::Text(text) => ValueModel::Text(text@),
            SettingValue::Flag(flag) => ValueModel::Flag(*flag),
        }
    }
}

impl View for Setting {
    type V = SettingModel;

    open spec fn view(&self) -> SettingModel {
        SettingModel { key: self.key@, value: self.value@ }
    }
}

impl View for SettingGroup {
    type V = GroupModel;

    open spec fn view(&self) -> GroupModel {
        GroupModel { group: self.group, settings: self.settings@.map_values(|s: Setting| s@) }
    }
}

impl View for AccessPointSettings {
    type V = Seq<GroupModel>;

    open spec fn view(&self) -> Seq<GroupModel> {
        self.groups@.map_values(|g: SettingGroup| g@)
    }
}

/// No key occurs twice among the settings.
pub open spec fn keys_distinct(settings: Seq<SettingModel>) -> bool {
    forall|i: int, j: int|
        0 <= i < j < settings.len() ==> (#[trigger] settings[i]).key != (#[trigger] settings[j]).key
}

/// The settings form a mapping: no group occurs twice, and within a group no
/// key does.
pub open spec fn well_formed(groups: Seq<GroupModel>) -> bool {
    &&& forall|i: int, j: int|
        0 <= i < j < groups.len() ==> (#[trigger] groups[i]).group != (#[trigger] groups[j]).group
    &&& forall|i: int| 0 <= i < groups.len() ==> keys_distinct((#[trigger] groups[i]).settings)
}

/// A setting that holds a text.
pub open spec fn text_setting(key: Seq<char>, text: Seq<char>) -> SettingModel {
    SettingModel { key, value: ValueModel::Text(text) }
}

/// A setting that holds a switch.
pub open spec fn flag_setting(key: Seq<char>, flag: bool) -> SettingModel {
    SettingModel { key, value: ValueModel::Flag(flag) }
}

/// The settings of an access point that announces `ssid`. The name goes out as
/// the bytes of its UTF-8 form; everything else is fixed: an open network in
/// access-point mode on the 2.4 GHz band, not hidden, which shares the
/// device's IPv4 connection, ignores IPv6 and connects by itself.
pub open spec fn access_point_groups(ssid: Seq<char>) -> Seq<GroupModel> {
    seq![
        GroupModel {
            group: Group::Wireless,
            settings: seq![
                SettingModel { key: "ssid"@, value: ValueModel::Bytes(encode_utf8(ssid)) },
                text_setting("mode"@, "ap"@),
                text_setting("band"@, "bg"@),
                flag_setting("hidden"@, false),
            ],
        },
        GroupModel { group: Group::Ipv4, settings: seq![text_setting("method"@, "shared"@)] },
        GroupModel { group: Group::Ipv6, settings: seq![text_setting("method"@, "ignore"@)] },
        GroupModel { group: Group::Connection, settings: seq![flag_setting("autoconnect"@, true)] },
    ]
}

/// The options of the activation request: the connection is kept in memory
/// only, and is gone once it is deactivated.
pub open spec fn activation_options() -> Seq<SettingModel> {
    seq![text_setting("persist"@, "volatile"@)]
}

fn text_entry(key: &str, text: &str) -> (setting: Setting)
    ensures
        setting@ == text_setting(key@, text@),
{
    Setting { key: key.to_owned(), value: SettingValue::Text(text.to_owned()) }
}

fn flag_entry(key: &str, flag: bool) -> (setting: Setting)
    ensures
        setting@ == flag_setting(key@, flag),
{
    Setting { key: key.to_owned(), value: SettingValue::Flag(flag) }
}

/// The settings of the access point are a mapping.
pub proof fn lemma_access_point_groups_well_formed(ssid: Seq<char>)
    ensures
        well_formed(access_point_groups(ssid)),
{
    reveal_strlit("ssid");
    reveal_strlit("mode");
    reveal_strlit("band");
    reveal_strlit("hidden");
    let groups = access_point_groups(ssid);
    let wireless = groups[0].settings;
    assert(wireless[0].key[0] == 's');
    assert(wireless[1].key[0] == 'm');
    assert(wireless[2].key[0] == 'b');
    assert(wireless[3].key[0] == 'h');
    assert(keys_distinct(groups[0].settings));
    assert(keys_distinct(groups[1].settings));
    assert(keys_distinct(groups[2].settings));
    assert(keys_distinct(groups[3].settings));
}

/// Builds the settings of an access point that announces `ssid`.
pub fn make_arguments_for_ap(ssid: &str) -> (settings: AccessPointSettings)
    ensures
        settings@ == access_point_groups(ssid@),
        well_formed(settings@),
{
    let mut wireless: Vec<Setting> = Vec::new();
    wireless.push(Setting { key: "ssid".to_owned(), value: SettingValue::Bytes(ssid.as_bytes_vec()) });
    wireless.push(text_entry("mode", "ap"));
    wireless.push(text_entry("band", "bg"));
    wireless.push(flag_entry("hidden", false));

    let mut ipv4: Vec<Setting> = Vec::new();
    ipv4.push(text_entry("method", "shared"));

    let mut ipv6: Vec<Setting> = Vec::new();
    ipv6.push(text_entry("method", "ignore"));

    let mut connection: Vec<Setting> = Vec::new();
    connection.push(flag_entry("autoconnect", true));

    let mut groups: Vec<SettingGroup> = Vec::new();
    groups.push(SettingGroup { group: Group::Wireless, settings: wireless });
    groups.push(SettingGroup { group: Group::Ipv4, settings: ipv4 });
    groups.push(SettingGroup { group: Group::Ipv6, settings: ipv6 });
    groups.push(SettingGroup { group: Group::Connection, settings: connection });

    let settings = AccessPointSettings { groups };
    proof {
        let expected = access_point_groups(ssid@);
        assert(settings.groups@[0]@.settings =~= expected[0].settings);
        assert(settings.groups@[1]@.settings =~= expected[1].settings);
        assert(settings.groups@[2]@.settings =~= expected[2].settings);
        assert(settings.groups@[3]@.settings =~= expected[3].settings);
        assert(settings@ =~= expected);
        lemma_access_point_groups_well_formed(ssid@);
    }
    settings
}

/// Plans the activation of the access point on the first Wi-Fi device among
/// those scanned, of which `device_types` holds the type readings in scan
/// order (`None` for a device whose type could not be read). The request asks
/// for a connection with the settings of `make_arguments_for_ap`, with the
/// root path as specific object, kept in memory only. Without a Wi-Fi device
/// there is nothing to activate.
pub fn start_ap_mode(device_types: &Vec<Option<u32>>, ssid: &str) -> (planned: Result<
    ActivationRequest,
    SetupError,
>)
    ensures
        match planned {
            Ok(request) => {
                &&& request.device < device_types.len()
                &&& reads_wifi(device_types[request.device as int])
                &&& forall|j: int| 0 <= j < request.device ==> !reads_wifi(#[trigger] device_types[j])
                &&& request.settings@ == access_point_groups(ssid@)
                &&& request.specific_object@ == "/"@
                &&& request.options@.map_values(|s: Setting| s@) == activation_options()
            },
            Err(error) => {
                &&& error == SetupError::DeviceDiscovery
                &&& forall|j: int| 0 <= j < device_types.len() ==> !reads_wifi(#[trigger] device_types[j])
            },
        },
        planned is Ok <==> exists|i: int|
            0 <= i < device_types.len() && reads_wifi(#[trigger] device_types[i]),
        forall|k: int|
            0 <= k < device_types.len() && reads_wifi(#[trigger] device_types[k]) && (forall|j: int|
                0 <= j < device_types.len() && j != k ==> (#[trigger] device_types[j]) is None)
                ==> planned is Ok && planned->Ok_0.device == k,
{
    match select_wifi_device(device_types) {
        Ok(device) => {
            let mut options: Vec<Setting> = Vec::new();
            options.push(text_entry("persist", "volatile"));
            assert(options@.map_values(|s: Setting| s@) =~= activation_options());
            Ok(
                ActivationRequest {
                    device,
                    settings: make_arguments_for_ap(ssid),
                    specific_object: "/".to_owned(),
                    options,
                },
            )
        },
        Err(error) => Err(error),
    }
}

/// The address word that a notification carries: the first word of its first
/// address block. A notification that could not be read (`None`), one without
/// blocks and one whose first block is empty carry none.
pub open spec fn update_word(update: Option<Seq<Seq<u32>>>) -> Option<u32> {
    match update {
        Some(blocks) => if blocks.len() > 0 && blocks[0].len() > 0 {
            Some(blocks[0][0])
        } else {
            None
        },
        None => None,
    }
}

/// `address` is what `word` reads as: its bytes in memory are the octets, in
/// the byte order of the machine.
pub open spec fn reads_as(word: u32, address: Ipv4Address) -> bool {
    address == Ipv4Address::of_bits(word) || address == Ipv4Address::of_bits(word).reversed()
}

/// Notification `index` is the first of `updates` that carries an address, and
/// the address word it carries is `word`.
pub open spec fn first_word_at(updates: Seq<Option<Seq<Seq<u32>>>>, index: int, word: u32) -> bool {
    &&& 0 <= index < updates.len()
    &&& update_word(updates[index]) == Some(word)
    &&& forall|j: int| 0 <= j < index ==> update_word(#[trigger] updates[j]) is None
}

/// None of the notifications carries an address.
pub open spec fn no_word(updates: Seq<Option<Seq<Seq<u32>>>>) -> bool {
    forall|j: int| 0 <= j < updates.len() ==> update_word(#[trigger] updates[j]) is None
}

/// Extracts the address word of one notification.
pub fn address_word(update: &Option<Vec<Vec<u32>>>) -> (word: Option<u32>)
    ensures
        word == update_word(update.deep_view()),
{
    match update {
        Some(blocks) => {
            if blocks.len() > 0 && blocks[0].len() > 0 {
                Some(blocks[0][0])
            } else {
                None
            }
        },
        None => None,
    }
}

/// Extracts the address of one notification, if it carries one. A notification
/// without an address means that the access point is not ready yet.
pub fn address_from_update(update: &Option<Vec<Vec<u32>>>) -> (address: Option<Ipv4Address>)
    ensures
        address is Some <==> update_word(update.deep_view()) is Some,
        address is Some ==> reads_as(update_word(update.deep_view())->0, address->0),
{
    match address_word(update) {
        Some(word) => Some(Ipv4Address::from_network_word(word)),
        None => None,
    }
}

/// Finds the first notification that carries an address: its position and the
/// address word.
pub fn first_address_word(updates: &Vec<Option<Vec<Vec<u32>>>>) -> (found: Option<(usize, u32)>)
    ensures
        match found {
            Some((index, word)) => first_word_at(updates.deep_view(), index as int, word),
            None => no_word(updates.deep_view()),
        },
{
    let mut i: usize = 0;
    while i < updates.len()
        invariant
            i <= updates.len(),
            updates.deep_view().len() == updates.len(),
            forall|j: int| 0 <= j < i ==> update_word(#[trigger] updates.deep_view()[j]) is None,
        decreases updates.len() - i,
    {
        assert(updates.deep_view()[i as int] == updates[i as int].deep_view());
        match address_word(&updates[i]) {
            Some(word) => {
                return Some((i, word));
            },
            None => {},
        }
        i += 1;
    }
    None
}

/// Resolves the address of the access point from the notifications of its
/// IPv4 configuration, given in the order in which they arrived. The first
/// notification that carries an address decides; those before it are passed
/// over. If the notifications ended without an address, setup fails.
pub fn wait_for_ip_from_device(updates: &Vec<Option<Vec<Vec<u32>>>>) -> (resolved: Result<
    Ipv4Address,
    SetupError,
>)
    ensures
        match resolved {
            Ok(address) => exists|index: int, word: u32| #[trigger]
                first_word_at(updates.deep_view(), index, word) && reads_as(word, address),
            Err(error) => error == SetupError::AddressResolution && no_word(updates.deep_view()),
        },
        resolved is Ok <==> !no_word(updates.deep_view()),
{
    match first_address_word(updates) {
        Some((index, word)) => {
            assert(first_word_at(updates.deep_view(), index as int, word));
            Ok(Ipv4Address::from_network_word(word))
        },
        None => Err(SetupError::AddressResolution),
    }
}

/// At most one notification is the first to carry an address: the position
/// and the word that the waiter resolves from are determined by the
/// notifications.
pub proof fn lemma_first_word_unique(
    updates: Seq<Option<Seq<Seq<u32>>>>,
    index: int,
    word: u32,
    other_index: int,
    other_word: u32,
)
    requires
        first_word_at(updates, index, word),
        first_word_at(updates, other_index, other_word),
    ensures
        index == other_index,
        word == other_word,
{
    if index < other_index {
        assert(update_word(updates[index]) is None);
    } else if other_index < index {
        assert(update_word(updates[other_index]) is None);
    }
}

/// Notifications without an address do not resolve the wait: the waiter
/// resolves from `updates` as it does from `updates` after any number of
/// notifications that carry nothing.
pub proof fn lemma_empty_notifications_are_passed_over(
    skipped: Seq<Option<Seq<Seq<u32>>>>,
    updates: Seq<Option<Seq<Seq<u32>>>>,
    index: int,
    word: u32,
)
    requires
        no_word(skipped),
        first_word_at(updates, index, word),
    ensures
        first_word_at(skipped + updates, skipped.len() + index, word),
{
    let all = skipped + updates;
    assert(all[skipped.len() + index] == updates[index]);
    assert forall|j: int| 0 <= j < skipped.len() + index implies update_word(
        #[trigger] all[j],
    ) is None by {
        if j < skipped.len() {
            assert(all[j] == skipped[j]);
        } else {
            assert(all[j] == updates[j - skipped.len()]);
        }
    }
}

} // verus!
