//! What the rest of a configuration has to look like once the channels are known.

use crate::bindings::{status_parses, url_parses};
use crate::config::{
    ZuseConfig, ZuseConfigDefaults, ZuseConfigNotifyGroups, ZuseConfigTest, ZuseConfigTestType,
};
use crate::error::{Setting, SetupError};
use vstd::hash_map::StringHashMap;
use vstd::prelude::*;

verus! {

/// The channels of a notify group.
pub type ZuseNotifyGroup = Vec<String>;

/// The notify groups by name.
pub type ZuseNotifyGroupMap = StringHashMap<ZuseNotifyGroup>;

/// The names in a list that may be left out.
pub open spec fn names(list: Option<Vec<String>>) -> Seq<String> {
    match list {
        Some(list) => list@,
        None => Seq::empty(),
    }
}

/// The notify groups in a list that may be left out.
pub open spec fn group_list(
    list: Option<Vec<ZuseConfigNotifyGroups>>,
) -> Seq<ZuseConfigNotifyGroups> {
    match list {
        Some(list) => list@,
        None => Seq::empty(),
    }
}

/// The first name, from a place on, that is not known.
pub open spec fn first_unknown(names: Seq<String>, known: Set<Seq<char>>, from: nat) -> Option<
    String,
>
    decreases names.len() - from,
{
    if from >= names.len() {
        None
    } else if !known.contains(names[from as int]@) {
        Some(names[from as int])
    } else {
        first_unknown(names, known, from + 1)
    }
}

/// The first thing wrong with the notify groups, from a place on.
pub open spec fn group_error(
    groups: Seq<ZuseConfigNotifyGroups>,
    channels: Set<Seq<char>>,
    from: nat,
) -> Option<SetupError>
    decreases groups.len() - from,
{
    if from >= groups.len() {
        None
    } else {
        match first_unknown(groups[from as int].notify@, channels, 0) {
            Some(channel) => Some(
                SetupError::GroupWithUnknownChannel { group: groups[from as int].name, channel },
            ),
            None => group_error(groups, channels, from + 1),
        }
    }
}

/// The first few notify groups by name. Of two with one name the later stays.
pub open spec fn grouped(groups: Seq<ZuseConfigNotifyGroups>, count: nat) -> Map<
    Seq<char>,
    Seq<String>,
>
    decreases count,
{
    if count == 0 {
        Map::empty()
    } else {
        let last = groups[count - 1];
        grouped(groups, (count - 1) as nat).insert(last.name@, last.notify@)
    }
}

/// The contents of the groups in a map.
pub open spec fn group_names(groups: Map<Seq<char>, ZuseNotifyGroup>) -> Map<
    Seq<char>,
    Seq<String>,
> {
    groups.map_values(|group: ZuseNotifyGroup| group@)
}

/// What is wrong with whom a test tells.
pub open spec fn reference_error_of(
    test: ZuseConfigTest,
    channels: Set<Seq<char>>,
    groups: Set<Seq<char>>,
) -> Option<SetupError> {
    match first_unknown(names(test.notify), channels, 0) {
        Some(channel) => Some(
            SetupError::TestWithUnknownChannel {
                test: test.name,
                test_type: test.test_type,
                channel,
            },
        ),
        None => match first_unknown(names(test.notify_groups), groups, 0) {
            Some(group) => Some(
                SetupError::TestWithUnknownGroup {
                    test: test.name,
                    test_type: test.test_type,
                    group,
                },
            ),
            None => None,
        },
    }
}

/// The first thing wrong with whom the tests tell, from a place on.
pub open spec fn reference_error(
    tests: Seq<ZuseConfigTest>,
    channels: Set<Seq<char>>,
    groups: Set<Seq<char>>,
    from: nat,
) -> Option<SetupError>
    decreases tests.len() - from,
{
    if from >= tests.len() {
        None
    } else {
        match reference_error_of(tests[from as int], channels, groups) {
            Some(error) => Some(error),
            None => reference_error(tests, channels, groups, from + 1),
        }
    }
}

/// Whether a number is a status of HTTP.
pub open spec fn is_status(code: u16) -> bool {
    100 <= code < 1000
}

/// What is wrong with the target and the expectations of a test, where it is
/// known whether the target is a URL and whether it is a socket address.
pub open spec fn target_error(test: ZuseConfigTest, url: bool, address: bool) -> Option<
    SetupError,
> {
    let name = test.name;
    let test_type = test.test_type;
    let target = test.target;
    match test_type {
        ZuseConfigTestType::HttpOk => if url {
            None
        } else {
            Some(SetupError::InvalidUrl { test: name, test_type, target })
        },
        ZuseConfigTestType::HttpMatch => if !url {
            Some(SetupError::InvalidUrl { test: name, test_type, target })
        } else {
            match test.expect {
                None => Some(SetupError::MissingExpectations { test: name, test_type }),
                Some(expect) => match expect.status {
                    None => if expect.text is None {
                        Some(SetupError::EmptyExpectations { test: name, test_type })
                    } else {
                        None
                    },
                    Some(status) => if is_status(status) {
                        None
                    } else {
                        Some(SetupError::InvalidStatus { test: name, test_type, status })
                    },
                },
            }
        },
        ZuseConfigTestType::TcpOk => if address {
            None
        } else {
            Some(SetupError::InvalidAddress { test: name, test_type, target })
        },
    }
}

/// What is wrong with the target and the expectations of a test, where it is
/// known whether the target is a socket address.
pub open spec fn type_error_of(test: ZuseConfigTest, address: bool) -> Option<SetupError> {
    target_error(test, crate::bindings::is_absolute_url(test.target@), address)
}

/// The first thing wrong with the targets and expectations, from a place on.
pub open spec fn type_error(
    tests: Seq<ZuseConfigTest>,
    addresses: Seq<bool>,
    from: nat,
) -> Option<SetupError>
    decreases tests.len() - from,
{
    if from >= tests.len() {
        None
    } else {
        match type_error_of(tests[from as int], addresses[from as int]) {
            Some(error) => Some(error),
            None => type_error(tests, addresses, from + 1),
        }
    }
}

/// The defaults, where nothing is said of them.
pub open spec fn defaults_of(defaults: Option<ZuseConfigDefaults>) -> ZuseConfigDefaults {
    match defaults {
        Some(defaults) => defaults,
        None => ZuseConfigDefaults { retries: None, recovery: None, interval: None, timeout: None },
    }
}

/// A setting of a test, or else its default.
pub open spec fn or_default(own: Option<u64>, default: Option<u64>) -> Option<u64> {
    match own {
        Some(value) => Some(value),
        None => default,
    }
}

/// A test with the defaults filled in.
pub open spec fn completed(test: ZuseConfigTest, defaults: ZuseConfigDefaults) -> ZuseConfigTest {
    ZuseConfigTest {
        retries: or_default(test.retries, defaults.retries),
        recovery: or_default(test.recovery, defaults.recovery),
        interval: or_default(test.interval, defaults.interval),
        timeout: or_default(test.timeout, defaults.timeout),
        ..test
    }
}

/// Which setting a test lacks, once the defaults are filled in. A test can do
/// without a timeout.
pub open spec fn setting_error_of(
    test: ZuseConfigTest,
    defaults: ZuseConfigDefaults,
) -> Option<SetupError> {
    let full = completed(test, defaults);
    let lacks = |setting: Setting|
        Some(SetupError::MissingSetting { test: test.name, test_type: test.test_type, setting });
    if full.retries is None {
        lacks(Setting::Retries)
    } else if full.recovery is None {
        lacks(Setting::Recovery)
    } else if full.interval is None {
        lacks(Setting::Interval)
    } else {
        None
    }
}

/// The first setting that a test lacks, from a place on.
pub open spec fn setting_error(
    tests: Seq<ZuseConfigTest>,
    defaults: ZuseConfigDefaults,
    from: nat,
) -> Option<SetupError>
    decreases tests.len() - from,
{
    if from >= tests.len() {
        None
    } else {
        match setting_error_of(tests[from as int], defaults) {
            Some(error) => Some(error),
            None => setting_error(tests, defaults, from + 1),
        }
    }
}

/// The first thing wrong with a configuration whose channels are known: the
/// notify groups come first, then whom the tests tell, then what they test, and
/// then their settings.
pub open spec fn configuration_error(
    config: ZuseConfig,
    channels: Set<Seq<char>>,
    addresses: Seq<bool>,
) -> Option<SetupError> {
    let groups = group_list(config.notify_groups);
    let known_groups = grouped(groups, groups.len()).dom();
    if group_error(groups, channels, 0) is Some {
        group_error(groups, channels, 0)
    } else if reference_error(config.tests@, channels, known_groups, 0) is Some {
        reference_error(config.tests@, channels, known_groups, 0)
    } else if type_error(config.tests@, addresses, 0) is Some {
        type_error(config.tests@, addresses, 0)
    } else {
        setting_error(config.tests@, defaults_of(config.defaults), 0)
    }
}

/// The first name in a list that a map does not have.
fn find_unknown<V>(list: &Vec<String>, known: &StringHashMap<V>) -> (unknown: Option<String>)
    ensures
        unknown == first_unknown(list@, known@.dom(), 0),
{
    let mut i: usize = 0;
    while i < list.len()
        invariant
            i <= list.len(),
            first_unknown(list@, known@.dom(), i as nat) == first_unknown(list@, known@.dom(), 0),
        decreases list.len() - i,
    {
        if !known.contains_key(list[i].as_str()) {
            return Some(list[i].clone());
        }
        i += 1;
    }
    None
}

/// The first name in a list that may be left out that a map does not have.
fn find_unknown_in<V>(list: &Option<Vec<String>>, known: &StringHashMap<V>) -> (unknown: Option<
    String,
>)
    ensures
        unknown == first_unknown(names(*list), known@.dom(), 0),
{
    match list {
        Some(list) => find_unknown(list, known),
        None => None,
    }
}

/// The same names.
pub(crate) fn same_names(list: &Vec<String>) -> (copy: Vec<String>)
    ensures
        copy@ == list@,
{
    let mut copy: Vec<String> = Vec::new();
    let mut i: usize = 0;
    while i < list.len()
        invariant
            i <= list.len(),
            copy@ == list@.take(i as int),
        decreases list.len() - i,
    {
        copy.push(list[i].clone());
        i += 1;
    }
    copy
}

/// The notify groups by name, unless one names a channel that is not there.
pub(crate) fn collect_groups<V>(
    groups: &Option<Vec<ZuseConfigNotifyGroups>>,
    channels: &StringHashMap<V>,
) -> (outcome: Result<ZuseNotifyGroupMap, SetupError>)
    ensures
        match outcome {
            Ok(map) => {
                let list = group_list(*groups);
                &&& group_error(list, channels@.dom(), 0) is None
                &&& group_names(map@) == grouped(list, list.len())
            },
            Err(error) => group_error(group_list(*groups), channels@.dom(), 0) == Some(error),
        },
{
    let mut map: ZuseNotifyGroupMap = StringHashMap::new();
    assert(group_names(map@) == grouped(group_list(*groups), 0));
    if let Some(list) = groups {
        let mut i: usize = 0;
        while i < list.len()
            invariant
                i <= list.len(),
                group_list(*groups) == list@,
                group_error(list@, channels@.dom(), i as nat) == group_error(
                    list@,
                    channels@.dom(),
                    0,
                ),
                group_names(map@) == grouped(list@, i as nat),
            decreases list.len() - i,
        {
            if let Some(channel) = find_unknown(&list[i].notify, channels) {
                return Err(
                    SetupError::GroupWithUnknownChannel { group: list[i].name.clone(), channel },
                );
            }
            let ghost before = map@;
            let members = same_names(&list[i].notify);
            map.insert(list[i].name.clone(), members);
            assert(group_names(map@) == group_names(before).insert(
                list@[i as int].name@,
                list@[i as int].notify@,
            ));
            i += 1;
        }
    }
    Ok(map)
}

/// The first thing wrong with whom the tests tell.
pub(crate) fn check_references<V>(
    tests: &Vec<ZuseConfigTest>,
    channels: &StringHashMap<V>,
    groups: &ZuseNotifyGroupMap,
) -> (error: Option<SetupError>)
    ensures
        error == reference_error(tests@, channels@.dom(), groups@.dom(), 0),
{
    let mut i: usize = 0;
    while i < tests.len()
        invariant
            i <= tests.len(),
            reference_error(tests@, channels@.dom(), groups@.dom(), i as nat) == reference_error(
                tests@,
                channels@.dom(),
                groups@.dom(),
                0,
            ),
        decreases tests.len() - i,
    {
        let test = &tests[i];
        if let Some(channel) = find_unknown_in(&test.notify, channels) {
            return Some(
                SetupError::TestWithUnknownChannel {
                    test: test.name.clone(),
                    test_type: test.test_type,
                    channel,
                },
            );
        }
        if let Some(group) = find_unknown_in(&test.notify_groups, groups) {
            return Some(
                SetupError::TestWithUnknownGroup {
                    test: test.name.clone(),
                    test_type: test.test_type,
                    group,
                },
            );
        }
        i += 1;
    }
    None
}

/// What is wrong with the target and the expectations of a test, where it is
/// known whether the target is a URL and whether it is a socket address.
pub fn check_target(test: &ZuseConfigTest, url: bool, address: bool) -> (error: Option<SetupError>)
    ensures
        error == target_error(*test, url, address),
{
    let test_type = test.test_type;
    match test_type {
        ZuseConfigTestType::TcpOk => {
            if address {
                None
            } else {
                Some(
                    SetupError::InvalidAddress {
                        test: test.name.clone(),
                        test_type,
                        target: test.target.clone(),
                    },
                )
            }
        },
        ZuseConfigTestType::HttpOk => {
            if url {
                None
            } else {
                Some(
                    SetupError::InvalidUrl {
                        test: test.name.clone(),
                        test_type,
                        target: test.target.clone(),
                    },
                )
            }
        },
        ZuseConfigTestType::HttpMatch => {
            if !url {
                return Some(
                    SetupError::InvalidUrl {
                        test: test.name.clone(),
                        test_type,
                        target: test.target.clone(),
                    },
                );
            }
            let expect = match &test.expect {
                None => {
                    return Some(
                        SetupError::MissingExpectations { test: test.name.clone(), test_type },
                    );
                },
                Some(expect) => expect,
            };
            match expect.status {
                None => {
                    if expect.text.is_none() {
                        Some(SetupError::EmptyExpectations { test: test.name.clone(), test_type })
                    } else {
                        None
                    }
                },
                Some(status) => {
                    if status_parses(status) {
                        None
                    } else {
                        Some(
                            SetupError::InvalidStatus {
                                test: test.name.clone(),
                                test_type,
                                status,
                            },
                        )
                    }
                },
            }
        },
    }
}

/// What is wrong with the target and the expectations of a test, where it is
/// known whether the target is a socket address.
pub fn check_type(test: &ZuseConfigTest, address: bool) -> (error: Option<SetupError>)
    ensures
        error == type_error_of(*test, address),
{
    check_target(test, url_parses(test.target.as_str()), address)
}

/// The first thing wrong with the targets and expectations of the tests, where it
/// is known which targets are socket addresses.
pub(crate) fn check_types(tests: &Vec<ZuseConfigTest>, addresses: &Vec<bool>) -> (error: Option<
    SetupError,
>)
    requires
        addresses@.len() == tests@.len(),
    ensures
        error == type_error(tests@, addresses@, 0),
{
    let mut i: usize = 0;
    while i < tests.len()
        invariant
            i <= tests.len(),
            addresses@.len() == tests@.len(),
            type_error(tests@, addresses@, i as nat) == type_error(tests@, addresses@, 0),
        decreases tests.len() - i,
    {
        if let Some(error) = check_type(&tests[i], addresses[i]) {
            return Some(error);
        }
        i += 1;
    }
    None
}

/// Fills in the defaults, up to the first test that still lacks a setting.
pub(crate) fn complete_tests(
    tests: &mut Vec<ZuseConfigTest>,
    defaults: &Option<ZuseConfigDefaults>,
) -> (error: Option<SetupError>)
    ensures
        error == setting_error(old(tests)@, defaults_of(*defaults), 0),
        error is None ==> final(tests)@ == old(tests)@.map_values(
            |test: ZuseConfigTest| completed(test, defaults_of(*defaults)),
        ),
{
    let (retries, recovery, interval, timeout) = match defaults {
        Some(defaults) => (
            defaults.retries,
            defaults.recovery,
            defaults.interval,
            defaults.timeout,
        ),
        None => (None, None, None, None),
    };
    let mut i: usize = 0;
    while i < tests.len()
        invariant
            i <= tests.len(),
            tests@.len() == old(tests)@.len(),
            defaults_of(*defaults) == (ZuseConfigDefaults { retries, recovery, interval, timeout }),
            setting_error(old(tests)@, defaults_of(*defaults), i as nat) == setting_error(
                old(tests)@,
                defaults_of(*defaults),
                0,
            ),
            forall|j: int|
                0 <= j < i ==> #[trigger] tests@[j] == completed(
                    old(tests)@[j],
                    defaults_of(*defaults),
                ),
            forall|j: int| i <= j < tests@.len() ==> #[trigger] tests@[j] == old(tests)@[j],
        decreases tests.len() - i,
    {
        let name = tests[i].name.clone();
        let test_type = tests[i].test_type;
        if tests[i].retries.is_none() {
            if retries.is_none() {
                return Some(
                    SetupError::MissingSetting { test: name, test_type, setting: Setting::Retries },
                );
            }
            tests[i].retries = retries;
        }
        if tests[i].recovery.is_none() {
            if recovery.is_none() {
                return Some(
                    SetupError::MissingSetting { test: name, test_type, setting: Setting::Recovery },
                );
            }
            tests[i].recovery = recovery;
        }
        if tests[i].interval.is_none() {
            if interval.is_none() {
                return Some(
                    SetupError::MissingSetting { test: name, test_type, setting: Setting::Interval },
                );
            }
            tests[i].interval = interval;
        }
        if tests[i].timeout.is_none() {
            tests[i].timeout = timeout;
        }
        i += 1;
    }
    None
}

} // verus!
