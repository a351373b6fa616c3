//! Federation: the machine-readable door listing a garage serves to its
//! peers, the proxy doors built from a peer's listing, and the merge that
//! replaces the garage's remote suffix each sync cycle.

use crate::garage::Button;
use crate::garage::Door;
use crate::garage::DoorAction;
use crate::garage::DoorControl;
use crate::garage::Garage;
use crate::gpio::GpioPin;
use vstd::prelude::*;
use vstd::string::StringExecFns;

verus! {

/// One door descriptor of a listing: name and kind, and for a discrete door
/// whether it exposes a stop action. No pin numbers or internal indices are
/// exposed.
#[derive(Debug, PartialEq)]
pub enum DoorJson {
    Discrete { name: String, stop_button: bool },
    Toggle { name: String },
}

/// The machine-readable door listing: an advisory schema version and one
/// descriptor per door, in garage order.
#[derive(Debug, PartialEq)]
pub struct GarageJson {
    pub version: u8,
    pub doors: Vec<DoorJson>,
}

/// The path segment of the action endpoint each action is served under.
pub open spec fn spec_action_path(action: DoorAction) -> Seq<char> {
    match action {
        DoorAction::Toggle => "toggle"@,
        DoorAction::Open => "open"@,
        DoorAction::Close => "close"@,
        DoorAction::Stop => "stop"@,
    }
}

/// The path segment naming an action in a door's action endpoint, as in
/// `/door/3/open`.
pub fn action_path(action: DoorAction) -> (r: &'static str)
    ensures
        r@ == spec_action_path(action),
{
    match action {
        DoorAction::Toggle => "toggle",
        DoorAction::Open => "open",
        DoorAction::Close => "close",
        DoorAction::Stop => "stop",
    }
}

/// The character a decimal digit prints as.
pub open spec fn spec_digit(d: int) -> char {
    if d == 0 {
        '0'
    } else if d == 1 {
        '1'
    } else if d == 2 {
        '2'
    } else if d == 3 {
        '3'
    } else if d == 4 {
        '4'
    } else if d == 5 {
        '5'
    } else if d == 6 {
        '6'
    } else if d == 7 {
        '7'
    } else if d == 8 {
        '8'
    } else {
        '9'
    }
}

/// The decimal digits of `n`, most significant first, with no leading
/// zeroes (zero itself prints as one digit).
pub open spec fn spec_decimal(n: int) -> Seq<char>
    recommends
        n >= 0,
    decreases n,
{
    if n < 10 {
        seq![spec_digit(n)]
    } else {
        spec_decimal(n / 10).push(spec_digit(n % 10))
    }
}

fn digit_str(d: usize) -> (r: &'static str)
    requires
        d < 10,
    ensures
        r@ == seq![spec_digit(d as int)],
{
    match d {
        0 => {
            proof {
                reveal_strlit("0");
                assert("0"@ =~= seq!['0']);
            }
            "0"
        },
        1 => {
            proof {
                reveal_strlit("1");
                assert("1"@ =~= seq!['1']);
            }
            "1"
        },
        2 => {
            proof {
                reveal_strlit("2");
                assert("2"@ =~= seq!['2']);
            }
            "2"
        },
        3 => {
            proof {
                reveal_strlit("3");
                assert("3"@ =~= seq!['3']);
            }
            "3"
        },
        4 => {
            proof {
                reveal_strlit("4");
                assert("4"@ =~= seq!['4']);
            }
            "4"
        },
        5 => {
            proof {
                reveal_strlit("5");
                assert("5"@ =~= seq!['5']);
            }
            "5"
        },
        6 => {
            proof {
                reveal_strlit("6");
                assert("6"@ =~= seq!['6']);
            }
            "6"
        },
        7 => {
            proof {
                reveal_strlit("7");
                assert("7"@ =~= seq!['7']);
            }
            "7"
        },
        8 => {
            proof {
                reveal_strlit("8");
                assert("8"@ =~= seq!['8']);
            }
            "8"
        },
        _ => {
            proof {
                reveal_strlit("9");
                assert("9"@ =~= seq!['9']);
            }
            "9"
        },
    }
}

/// Renders a number in decimal, as door positions appear in action
/// endpoint paths.
pub fn decimal(n: usize) -> (r: String)
    ensures
        r@ == spec_decimal(n as int),
    decreases n,
{
    let d = n % 10;
    let digit = digit_str(d);
    if n < 10 {
        digit.to_owned()
    } else {
        let mut prefix = decimal(n / 10);
        prefix.append(digit);
        proof {
            assert(spec_decimal(n as int / 10) + seq![spec_digit(n as int % 10)] =~= spec_decimal(
                n as int / 10,
            ).push(spec_digit(n as int % 10)));
        }
        prefix
    }
}

/// The action endpoint a remote button posts to:
/// `<host>/door/<position>/<action>`, the position being the door's place
/// in the peer's own listing.
pub open spec fn spec_action_url(host: Seq<char>, index: int, action: DoorAction) -> Seq<char> {
    host + "/door/"@ + spec_decimal(index) + "/"@ + spec_action_path(action)
}

/// Builds the action endpoint URL a remote button posts to.
pub fn action_url(host: &str, index: usize, action: DoorAction) -> (r: String)
    ensures
        r@ == spec_action_url(host@, index as int, action),
{
    let mut url = host.to_owned();
    url.append("/door/");
    let idx = decimal(index);
    url.append(idx.as_str());
    url.append("/");
    url.append(action_path(action));
    url
}

/// Builds the URL a peer's door listing is fetched from.
pub fn listing_url(host: &str) -> (r: String)
    ensures
        r@ == host@ + "/doors.json"@,
{
    let mut url = host.to_owned();
    url.append("/doors.json");
    url
}

/// The descriptor a door publishes.
pub open spec fn spec_door_json<P: GpioPin>(d: Door<P>) -> DoorJson {
    match d.control {
        DoorControl::Toggle { .. } => DoorJson::Toggle { name: d.name },
        DoorControl::Discrete { stop_button, .. } => DoorJson::Discrete {
            name: d.name,
            stop_button: stop_button is Some,
        },
    }
}

/// Builds the listing for the whole garage: version 0 and one descriptor
/// per door, in order.
pub fn garage_json<P: GpioPin>(garage: &Garage<P>) -> (r: GarageJson)
    ensures
        r.version == 0,
        r.doors@.len() == garage.doors@.len(),
        forall|i: int|
            0 <= i < garage.doors@.len() ==> r.doors@[i] == spec_door_json(garage.doors@[i]),
{
    let mut doors: Vec<DoorJson> = Vec::new();
    let mut i: usize = 0;
    while i < garage.doors.len()
        invariant
            i <= garage.doors@.len(),
            doors@.len() == i,
            forall|j: int| 0 <= j < i ==> doors@[j] == spec_door_json(garage.doors@[j]),
        decreases garage.doors@.len() - i,
    {
        let door = &garage.doors[i];
        let dj = match &door.control {
            DoorControl::Toggle { .. } => DoorJson::Toggle { name: door.name.clone() },
            DoorControl::Discrete { stop_button, .. } => DoorJson::Discrete {
                name: door.name.clone(),
                stop_button: stop_button.is_some(),
            },
        };
        doors.push(dj);
        i += 1;
    }
    GarageJson { version: 0, doors }
}

/// A remote button for one action on the door at position `index` of the
/// peer's own listing.
pub open spec fn remote_button_built<P: GpioPin>(
    b: Button<P>,
    host: Seq<char>,
    index: int,
    action: DoorAction,
) -> bool {
    &&& b matches Button::Remote { host: h, door_index, action: a }
    &&& h@ == host
    &&& door_index == index
    &&& a == action
}

/// The local proxy door for the descriptor at position `index` of a peer's
/// listing: name copied, origin set to the peer, every exposed action
/// backed by a remote button for that peer and position.
pub open spec fn remote_door_built<P: GpioPin>(
    d: Door<P>,
    host: Seq<char>,
    index: int,
    dj: DoorJson,
) -> bool {
    match dj {
        DoorJson::Toggle { name } => {
            &&& d.name == name
            &&& d.host matches Some(h) && h@ == host
            &&& d.control matches DoorControl::Toggle { button }
            &&& remote_button_built(button, host, index, DoorAction::Toggle)
        },
        DoorJson::Discrete { name, stop_button } => {
            &&& d.name == name
            &&& d.host matches Some(h) && h@ == host
            &&& d.control matches DoorControl::Discrete {
                open_button,
                close_button,
                stop_button: sb,
            }
            &&& remote_button_built(open_button, host, index, DoorAction::Open)
            &&& remote_button_built(close_button, host, index, DoorAction::Close)
            &&& if stop_button {
                sb matches Some(s) && remote_button_built(s, host, index, DoorAction::Stop)
            } else {
                sb is None
            }
        },
    }
}

/// Builds the local proxy doors for one peer's listing, in listing order.
pub fn doors_from_listing<P: GpioPin>(host: &String, listing: &GarageJson) -> (r: Vec<Door<P>>)
    ensures
        r@.len() == listing.doors@.len(),
        forall|i: int|
            0 <= i < listing.doors@.len() ==> remote_door_built(
                r@[i],
                host@,
                i,
                listing.doors@[i],
            ),
{
    let mut out: Vec<Door<P>> = Vec::new();
    let mut i: usize = 0;
    while i < listing.doors.len()
        invariant
            i <= listing.doors@.len(),
            out@.len() == i,
            forall|j: int| 0 <= j < i ==> remote_door_built(out@[j], host@, j, listing.doors@[j]),
        decreases listing.doors@.len() - i,
    {
        let dj = &listing.doors[i];
        let door: Door<P> = match dj {
            DoorJson::Toggle { name } => Door {
                name: name.clone(),
                host: Some(host.clone()),
                control: DoorControl::Toggle {
                    button: Button::Remote {
                        host: host.clone(),
                        door_index: i,
                        action: DoorAction::Toggle,
                    },
                },
            },
            DoorJson::Discrete { name, stop_button } => {
                let sb: Option<Button<P>> = if *stop_button {
                    Some(
                        Button::Remote {
                            host: host.clone(),
                            door_index: i,
                            action: DoorAction::Stop,
                        },
                    )
                } else {
                    None
                };
                Door {
                    name: name.clone(),
                    host: Some(host.clone()),
                    control: DoorControl::Discrete {
                        open_button: Button::Remote {
                            host: host.clone(),
                            door_index: i,
                            action: DoorAction::Open,
                        },
                        close_button: Button::Remote {
                            host: host.clone(),
                            door_index: i,
                            action: DoorAction::Close,
                        },
                        stop_button: sb,
                    },
                }
            },
        };
        out.push(door);
        i += 1;
    }
    out
}

/// The descriptors one reachable host contributes: its doors, each tagged
/// with the host and the door's position in the host's own listing.
pub open spec fn listing_descs(host: Seq<char>, doors: Seq<DoorJson>) -> Seq<
    (Seq<char>, int, DoorJson),
> {
    Seq::new(doors.len(), |i: int| (host, i, doors[i]))
}

/// The descriptors a whole cycle gathers, in host order then listing order;
/// an unreachable host (None) contributes nothing.
pub open spec fn remote_descs(hosts: Seq<String>, listings: Seq<Option<GarageJson>>) -> Seq<
    (Seq<char>, int, DoorJson),
>
    recommends
        hosts.len() == listings.len(),
    decreases hosts.len(),
{
    if hosts.len() == 0 {
        Seq::empty()
    } else {
        remote_descs(hosts.drop_last(), listings.drop_last()) + (match listings.last() {
            Some(l) => listing_descs(hosts.last()@, l.doors@),
            None => Seq::empty(),
        })
    }
}

/// Builds the proxy doors for every reachable host of a cycle, in host
/// order then listing order.
pub fn collect_remote_doors<P: GpioPin>(hosts: &Vec<String>, listings: &Vec<Option<GarageJson>>) -> (r:
    Vec<Door<P>>)
    requires
        hosts@.len() == listings@.len(),
    ensures
        r@.len() == remote_descs(hosts@, listings@).len(),
        forall|k: int|
            0 <= k < r@.len() ==> remote_door_built(
                r@[k],
                remote_descs(hosts@, listings@)[k].0,
                remote_descs(hosts@, listings@)[k].1,
                remote_descs(hosts@, listings@)[k].2,
            ),
{
    let mut out: Vec<Door<P>> = Vec::new();
    let mut i: usize = 0;
    while i < hosts.len()
        invariant
            hosts@.len() == listings@.len(),
            i <= hosts@.len(),
            out@.len() == remote_descs(hosts@.take(i as int), listings@.take(i as int)).len(),
            forall|k: int|
                0 <= k < out@.len() ==> remote_door_built(
                    out@[k],
                    remote_descs(hosts@.take(i as int), listings@.take(i as int))[k].0,
                    remote_descs(hosts@.take(i as int), listings@.take(i as int))[k].1,
                    remote_descs(hosts@.take(i as int), listings@.take(i as int))[k].2,
                ),
        decreases hosts@.len() - i,
    {
        match &listings[i] {
            None => {},
            Some(l) => {
                let mut ds = doors_from_listing(&hosts[i], l);
                out.append(&mut ds);
            },
        }
        proof {
            assert(hosts@.take(i + 1).drop_last() =~= hosts@.take(i as int));
            assert(listings@.take(i + 1).drop_last() =~= listings@.take(i as int));
            assert(hosts@.take(i + 1).last() == hosts@[i as int]);
            assert(listings@.take(i + 1).last() == listings@[i as int]);
        }
        i += 1;
    }
    proof {
        assert(hosts@.take(hosts@.len() as int) =~= hosts@);
        assert(listings@.take(listings@.len() as int) =~= listings@);
    }
    out
}

impl<P: GpioPin> Garage<P> {
    /// One federation merge: truncates the door list to its local prefix
    /// and appends the proxy doors this cycle's listings yield. The local
    /// prefix is untouched; the previous remote suffix is discarded
    /// wholesale, reachable or not.
    pub fn sync_cycle(
        &mut self,
        local_count: usize,
        hosts: &Vec<String>,
        listings: &Vec<Option<GarageJson>>,
    )
        requires
            local_count <= old(self).doors@.len(),
            hosts@.len() == listings@.len(),
        ensures
            final(self).doors@.len() == local_count + remote_descs(hosts@, listings@).len(),
            forall|j: int|
                0 <= j < local_count ==> final(self).doors@[j] == old(self).doors@[j],
            forall|k: int|
                0 <= k < remote_descs(hosts@, listings@).len() ==> remote_door_built(
                    final(self).doors@[local_count + k],
                    remote_descs(hosts@, listings@)[k].0,
                    remote_descs(hosts@, listings@)[k].1,
                    remote_descs(hosts@, listings@)[k].2,
                ),
    {
        let mut remote: Vec<Door<P>> = collect_remote_doors(hosts, listings);
        self.doors.truncate(local_count);
        self.doors.append(&mut remote);
    }
}

/// Doors a cycle's listings list in total: each reachable host its own door
/// count, an unreachable host nothing.
pub open spec fn listed_door_count(listings: Seq<Option<GarageJson>>) -> int
    decreases listings.len(),
{
    if listings.len() == 0 {
        0
    } else {
        listed_door_count(listings.drop_last()) + (match listings.last() {
            Some(l) => l.doors@.len() as int,
            None => 0,
        })
    }
}

/// Law: a sync cycle gathers exactly the doors the reachable hosts list in
/// that cycle — with `sync_cycle`'s contract, the door count after a cycle
/// is the local count plus this cycle's listed doors, however many remote
/// doors earlier cycles had gathered.
pub proof fn lemma_remote_descs_count(hosts: Seq<String>, listings: Seq<Option<GarageJson>>)
    requires
        hosts.len() == listings.len(),
    ensures
        remote_descs(hosts, listings).len() == listed_door_count(listings),
    decreases hosts.len(),
{
    if hosts.len() > 0 {
        lemma_remote_descs_count(hosts.drop_last(), listings.drop_last());
    }
}

} // verus!
