//! The dashboard tab from which latency tests are started and stopped.

use vstd::prelude::*;
use vstd::string::*;
use crate::packets::{LatencyTestConfig, ServerRequest};

verus! {

/// Range of the slider for the frame size, in kilobytes.
pub const FRAME_SIZE_KB_MIN: u32 = 10;

pub const FRAME_SIZE_KB_MAX: u32 = 500;

/// Range of the slider for the frame rate, in frames per second.
pub const FRAME_RATE_HZ_MIN: u32 = 30;

pub const FRAME_RATE_HZ_MAX: u32 = 120;

/// Range of the slider for the duration, in seconds.
pub const DURATION_SECS_MIN: u32 = 5;

pub const DURATION_SECS_MAX: u32 = 120;

/// What stands in place of the addresses where no client has one.
pub const NO_ADDRESS: &'static str = "No IP available";

/// What stands between two addresses.
pub const SEPARATOR: &'static str = ", ";

/// What the session knows of a client. The address is kept as its text.
#[derive(Debug, PartialEq, Eq)]
pub struct ClientConnectionConfig {
    pub trusted: bool,
    pub current_ip: Option<String>,
}

/// The session's clients under their host names, in the order in which they are listed.
#[derive(Debug, PartialEq, Eq)]
pub struct SessionConfig {
    pub client_connections: Vec<(String, ClientConnectionConfig)>,
}

/// A client that a test can be run with.
#[derive(Debug, PartialEq, Eq)]
pub struct ClientInfo {
    pub hostname: String,
    pub ip: Option<String>,
}

/// State of the tab.
#[derive(Debug, PartialEq, Eq)]
pub struct MeasurementTab {
    pub available_clients: Vec<ClientInfo>,
    pub client_ip_input: String,
    pub frame_size_kb: u32,
    pub frame_rate_hz: u32,
    pub duration_secs: u32,
    pub test_running: bool,
}

/// What the user did.
#[derive(Debug, PartialEq, Eq)]
pub enum UiEvent {
    /// The text of the address field is now this.
    IpEdited(String),
    /// The slider for the frame size was moved to this value.
    FrameSizeChanged(u32),
    /// The slider for the frame rate was moved to this value.
    FrameRateChanged(u32),
    /// The slider for the duration was moved to this value.
    DurationChanged(u32),
    /// The start button was clicked; `ip_valid` says whether the address field holds an address.
    StartClicked { ip_valid: bool },
    /// The stop button was clicked.
    StopClicked,
}

/// The clients of a session that are trusted, in their order.
pub open spec fn trusted_clients(connections: Seq<(String, ClientConnectionConfig)>) -> Seq<
    ClientInfo,
>
    decreases connections.len(),
{
    if connections.len() == 0 {
        Seq::empty()
    } else {
        let before = trusted_clients(connections.drop_last());
        let (hostname, config) = connections.last();
        if config.trusted {
            before.push(ClientInfo { hostname, ip: config.current_ip })
        } else {
            before
        }
    }
}

/// The addresses of those clients that have one, in their order.
pub open spec fn addresses(clients: Seq<ClientInfo>) -> Seq<Seq<char>>
    decreases clients.len(),
{
    if clients.len() == 0 {
        Seq::empty()
    } else {
        let before = addresses(clients.drop_last());
        match clients.last().ip {
            Some(ip) => before.push(ip@),
            None => before,
        }
    }
}

/// Texts one after the other, with a separator between each two.
pub open spec fn joined(texts: Seq<Seq<char>>, separator: Seq<char>) -> Seq<char>
    decreases texts.len(),
{
    if texts.len() == 0 {
        Seq::empty()
    } else if texts.len() == 1 {
        texts[0]
    } else {
        joined(texts.drop_last(), separator) + separator + texts.last()
    }
}

/// What the address field holds after the list of clients was renewed: an empty field is filled
/// with the first address in the list.
pub open spec fn filled_in(input: Seq<char>, clients: Seq<ClientInfo>) -> Seq<char> {
    if input.len() == 0 && addresses(clients).len() > 0 {
        addresses(clients)[0]
    } else {
        input
    }
}

/// The line that lists the addresses of the clients; there is none where there are no clients.
pub open spec fn available_line(clients: Seq<ClientInfo>) -> Option<Seq<char>> {
    if clients.len() == 0 {
        None
    } else {
        let line = joined(addresses(clients), SEPARATOR@);
        Some(
            if line.len() == 0 {
                NO_ADDRESS@
            } else {
                line
            },
        )
    }
}

impl MeasurementTab {
    /// The settings that a test would be started with.
    pub open spec fn config(self) -> LatencyTestConfig {
        LatencyTestConfig {
            client_ip: self.client_ip_input,
            frame_size_kb: self.frame_size_kb,
            frame_rate_hz: self.frame_rate_hz,
            duration_secs: self.duration_secs,
        }
    }

    /// Whether every setting is within the range of its slider.
    pub open spec fn settings_in_range(self) -> bool {
        &&& FRAME_SIZE_KB_MIN <= self.frame_size_kb <= FRAME_SIZE_KB_MAX
        &&& FRAME_RATE_HZ_MIN <= self.frame_rate_hz <= FRAME_RATE_HZ_MAX
        &&& DURATION_SECS_MIN <= self.duration_secs <= DURATION_SECS_MAX
    }

    pub fn new() -> (tab: Self)
        ensures
            tab.available_clients@.len() == 0,
            tab.client_ip_input@.len() == 0,
            tab.frame_size_kb == 100,
            tab.frame_rate_hz == 90,
            tab.duration_secs == 30,
            !tab.test_running,
            tab.settings_in_range(),
    {
        MeasurementTab {
            available_clients: Vec::new(),
            client_ip_input: String::new(),
            frame_size_kb: 100,
            frame_rate_hz: 90,
            duration_secs: 30,
            test_running: false,
        }
    }

    /// Renews the list of clients, and fills in the address of the first one that has one if the
    /// address field is empty.
    pub fn update_client_list(&mut self, session: &SessionConfig)
        ensures
            final(self).available_clients@ == trusted_clients(session.client_connections@),
            final(self).client_ip_input@ == filled_in(
                old(self).client_ip_input@,
                trusted_clients(session.client_connections@),
            ),
            old(self).client_ip_input@.len() > 0 ==> final(self).client_ip_input == old(
                self,
            ).client_ip_input,
            final(self).frame_size_kb == old(self).frame_size_kb,
            final(self).frame_rate_hz == old(self).frame_rate_hz,
            final(self).duration_secs == old(self).duration_secs,
            final(self).test_running == old(self).test_running,
    {
        self.available_clients = list_trusted(&session.client_connections);
        if self.client_ip_input.as_str().is_empty() {
            match first_address(&self.available_clients) {
                Some(ip) => {
                    self.client_ip_input = ip;
                },
                None => {},
            }
        }
    }

    /// What happens when the user does something: the settings follow the widgets, and a click on
    /// a button that is enabled makes a request. The start button is enabled while the address is
    /// valid and no test is running, the stop button while a test is running.
    pub fn ui(&mut self, event: UiEvent) -> (request: Option<ServerRequest>)
        ensures
            request == ui_request(*old(self), event),
            *final(self) == ui_state(*old(self), event),
    {
        match event {
            UiEvent::IpEdited(text) => {
                self.client_ip_input = text;
                None
            },
            UiEvent::FrameSizeChanged(v) => {
                self.frame_size_kb = v;
                None
            },
            UiEvent::FrameRateChanged(v) => {
                self.frame_rate_hz = v;
                None
            },
            UiEvent::DurationChanged(v) => {
                self.duration_secs = v;
                None
            },
            UiEvent::StartClicked { ip_valid } => {
                if self.can_start(ip_valid) {
                    self.test_running = true;
                    Some(
                        ServerRequest::StartLatencyTest(
                            LatencyTestConfig {
                                client_ip: self.client_ip_input.clone(),
                                frame_size_kb: self.frame_size_kb,
                                frame_rate_hz: self.frame_rate_hz,
                                duration_secs: self.duration_secs,
                            },
                        ),
                    )
                } else {
                    None
                }
            },
            UiEvent::StopClicked => {
                if self.can_stop() {
                    self.test_running = false;
                    Some(ServerRequest::StopLatencyTest)
                } else {
                    None
                }
            },
        }
    }

    /// Whether the start button is enabled.
    pub fn can_start(&self, ip_valid: bool) -> (enabled: bool)
        ensures
            enabled == (ip_valid && !self.test_running),
    {
        ip_valid && !self.test_running
    }

    /// Whether the stop button is enabled, and the note that a test is running is shown.
    pub fn can_stop(&self) -> (enabled: bool)
        ensures
            enabled == self.test_running,
    {
        self.test_running
    }

    /// Whether the note that the address is invalid is shown.
    pub fn shows_invalid_ip(&self, ip_valid: bool) -> (shown: bool)
        ensures
            shown == (!ip_valid && self.client_ip_input@.len() > 0),
    {
        !ip_valid && !self.client_ip_input.as_str().is_empty()
    }

    /// The line that lists the addresses of the clients, if it is shown.
    pub fn available_label(&self) -> (line: Option<String>)
        ensures
            line is Some <==> available_line(self.available_clients@) is Some,
            line is Some ==> line->0@ == available_line(self.available_clients@)->0,
    {
        if self.available_clients.len() == 0 {
            return None;
        }
        let line: String = join_addresses(&self.available_clients);
        if line.as_str().is_empty() {
            Some(NO_ADDRESS.to_owned())
        } else {
            Some(line)
        }
    }
}

fn list_trusted(connections: &Vec<(String, ClientConnectionConfig)>) -> (clients: Vec<ClientInfo>)
    ensures
        clients@ == trusted_clients(connections@),
{
    let mut clients: Vec<ClientInfo> = Vec::new();
    let mut i: usize = 0;
    assert(connections@.take(0) =~= Seq::empty());
    while i < connections.len()
        invariant
            i <= connections@.len(),
            clients@ == trusted_clients(connections@.take(i as int)),
        decreases connections@.len() - i,
    {
        proof {
            assert(connections@.take(i + 1).drop_last() =~= connections@.take(i as int));
            assert(connections@.take(i + 1).last() == connections@[i as int]);
        }
        let (hostname, config) = &connections[i];
        if config.trusted {
            let ip: Option<String> = match &config.current_ip {
                Some(text) => Some(text.clone()),
                None => None,
            };
            clients.push(ClientInfo { hostname: hostname.clone(), ip });
        }
        i = i + 1;
    }
    assert(connections@.take(i as int) =~= connections@);
    clients
}

fn first_address(clients: &Vec<ClientInfo>) -> (ip: Option<String>)
    ensures
        ip is Some <==> addresses(clients@).len() > 0,
        ip is Some ==> ip->0@ == addresses(clients@)[0],
{
    let mut i: usize = 0;
    assert(clients@.take(0) =~= Seq::empty());
    while i < clients.len()
        invariant
            i <= clients@.len(),
            addresses(clients@.take(i as int)).len() == 0,
        decreases clients@.len() - i,
    {
        proof {
            assert(clients@.take(i + 1).drop_last() =~= clients@.take(i as int));
            assert(clients@.take(i + 1).last() == clients@[i as int]);
        }
        match &clients[i].ip {
            Some(text) => {
                proof {
                    lemma_first_address_stays(clients@, i + 1);
                }
                return Some(text.clone());
            },
            None => {},
        }
        i = i + 1;
    }
    assert(clients@.take(i as int) =~= clients@);
    None
}

proof fn lemma_first_address_stays(clients: Seq<ClientInfo>, n: int)
    requires
        0 <= n <= clients.len(),
        addresses(clients.take(n)).len() > 0,
    ensures
        addresses(clients).len() > 0,
        addresses(clients)[0] == addresses(clients.take(n))[0],
    decreases clients.len() - n,
{
    if n == clients.len() {
        assert(clients.take(n) =~= clients);
    } else {
        assert(clients.take(n + 1).drop_last() =~= clients.take(n));
        lemma_first_address_stays(clients, n + 1);
    }
}

fn join_addresses(clients: &Vec<ClientInfo>) -> (line: String)
    ensures
        line@ == joined(addresses(clients@), SEPARATOR@),
{
    let mut line: String = String::new();
    let mut count: usize = 0;
    let mut i: usize = 0;
    assert(clients@.take(0) =~= Seq::empty());
    while i < clients.len()
        invariant
            i <= clients@.len(),
            count <= i,
            count == addresses(clients@.take(i as int)).len(),
            line@ == joined(addresses(clients@.take(i as int)), SEPARATOR@),
        decreases clients@.len() - i,
    {
        proof {
            assert(clients@.take(i + 1).drop_last() =~= clients@.take(i as int));
            assert(clients@.take(i + 1).last() == clients@[i as int]);
        }
        match &clients[i].ip {
            Some(text) => {
                proof {
                    let before = addresses(clients@.take(i as int));
                    assert(before.push(text@).drop_last() =~= before);
                    if before.len() == 0 {
                        assert(Seq::<char>::empty() + text@ =~= text@);
                    }
                }
                if count > 0 {
                    line.append(SEPARATOR);
                }
                line.append(text.as_str());
                count = count + 1;
            },
            None => {},
        }
        i = i + 1;
    }
    assert(clients@.take(i as int) =~= clients@);
    line
}

/// The request that an action of the user makes.
pub open spec fn ui_request(tab: MeasurementTab, event: UiEvent) -> Option<ServerRequest> {
    match event {
        UiEvent::StartClicked { ip_valid } if ip_valid && !tab.test_running => Some(
            ServerRequest::StartLatencyTest(tab.config()),
        ),
        UiEvent::StopClicked if tab.test_running => Some(ServerRequest::StopLatencyTest),
        _ => None,
    }
}

/// The state of the tab after an action of the user.
pub open spec fn ui_state(tab: MeasurementTab, event: UiEvent) -> MeasurementTab {
    match event {
        UiEvent::IpEdited(text) => MeasurementTab { client_ip_input: text, ..tab },
        UiEvent::FrameSizeChanged(v) => MeasurementTab { frame_size_kb: v, ..tab },
        UiEvent::FrameRateChanged(v) => MeasurementTab { frame_rate_hz: v, ..tab },
        UiEvent::DurationChanged(v) => MeasurementTab { duration_secs: v, ..tab },
        UiEvent::StartClicked { ip_valid } => MeasurementTab {
            test_running: tab.test_running || ip_valid,
            ..tab
        },
        UiEvent::StopClicked => MeasurementTab { test_running: false, ..tab },
    }
}

/// Whether a slider that was moved stands within its range.
pub open spec fn slider_in_range(event: UiEvent) -> bool {
    match event {
        UiEvent::FrameSizeChanged(v) => FRAME_SIZE_KB_MIN <= v <= FRAME_SIZE_KB_MAX,
        UiEvent::FrameRateChanged(v) => FRAME_RATE_HZ_MIN <= v <= FRAME_RATE_HZ_MAX,
        UiEvent::DurationChanged(v) => DURATION_SECS_MIN <= v <= DURATION_SECS_MAX,
        _ => true,
    }
}

/// As long as the sliders keep to their ranges, so do the settings of every test that is asked
/// for.
pub proof fn requests_carry_settings_in_range(tab: MeasurementTab, event: UiEvent)
    requires
        tab.settings_in_range(),
        slider_in_range(event),
    ensures
        ui_state(tab, event).settings_in_range(),
        ui_request(tab, event) matches Some(ServerRequest::StartLatencyTest(config)) ==> {
            &&& FRAME_SIZE_KB_MIN <= config.frame_size_kb <= FRAME_SIZE_KB_MAX
            &&& FRAME_RATE_HZ_MIN <= config.frame_rate_hz <= FRAME_RATE_HZ_MAX
            &&& DURATION_SECS_MIN <= config.duration_secs <= DURATION_SECS_MAX
        },
{
}

/// The state of the tab after a row of actions.
pub open spec fn tab_after(tab: MeasurementTab, events: Seq<UiEvent>) -> MeasurementTab
    decreases events.len(),
{
    if events.len() == 0 {
        tab
    } else {
        ui_state(tab_after(tab, events.drop_last()), events.last())
    }
}

/// The requests that a row of actions makes, in order.
pub open spec fn requests_after(tab: MeasurementTab, events: Seq<UiEvent>) -> Seq<ServerRequest>
    decreases events.len(),
{
    if events.len() == 0 {
        Seq::empty()
    } else {
        let before = requests_after(tab, events.drop_last());
        match ui_request(tab_after(tab, events.drop_last()), events.last()) {
            Some(request) => before.push(request),
            None => before,
        }
    }
}

/// Starting and stopping alternate: beginning from a tab with no test running, every request in an
/// even place starts a test and every one in an odd place stops it, and a test is running just
/// when the last request was a start.
pub proof fn starts_and_stops_alternate(tab: MeasurementTab, events: Seq<UiEvent>)
    requires
        !tab.test_running,
    ensures
        forall|i: int|
            0 <= i < requests_after(tab, events).len() ==> ((#[trigger] requests_after(
                tab,
                events,
            )[i]) is StartLatencyTest <==> i % 2 == 0),
        tab_after(tab, events).test_running <==> requests_after(tab, events).len() % 2 == 1,
    decreases events.len(),
{
    if events.len() > 0 {
        starts_and_stops_alternate(tab, events.drop_last());
    }
}

/// A list of clients without addresses leaves the address field as it is, and a field that holds
/// something is never overwritten.
pub proof fn a_filled_field_is_kept(input: Seq<char>, clients: Seq<ClientInfo>)
    ensures
        input.len() > 0 ==> filled_in(input, clients) == input,
        addresses(clients).len() == 0 ==> filled_in(input, clients) == input,
{
}

/// The list of clients holds each trusted client of the session, with its own name and address, in
/// the order of the session, and no other.
pub proof fn every_trusted_client_is_listed_in_its_turn(
    before: Seq<(String, ClientConnectionConfig)>,
    hostname: String,
    config: ClientConnectionConfig,
)
    ensures
        trusted_clients(Seq::<(String, ClientConnectionConfig)>::empty()).len() == 0,
        config.trusted ==> ({
            let clients = trusted_clients(before.push((hostname, config)));
            &&& clients.len() == trusted_clients(before).len() + 1
            &&& clients.drop_last() == trusted_clients(before)
            &&& clients.last().hostname == hostname
            &&& clients.last().ip == config.current_ip
        }),
        !config.trusted ==> trusted_clients(before.push((hostname, config))) == trusted_clients(
            before,
        ),
{
    assert(before.push((hostname, config)).drop_last() =~= before);
    if config.trusted {
        assert(trusted_clients(before.push((hostname, config))).drop_last() =~= trusted_clients(
            before,
        ));
    }
}

/// The addresses are those of the clients that have one, each of them, in their order.
pub proof fn every_address_is_listed_in_its_turn(before: Seq<ClientInfo>, client: ClientInfo)
    ensures
        addresses(Seq::<ClientInfo>::empty()).len() == 0,
        client.ip is Some ==> addresses(before.push(client)) == addresses(before).push(
            client.ip->0@,
        ),
        client.ip is None ==> addresses(before.push(client)) == addresses(before),
{
    assert(before.push(client).drop_last() =~= before);
}

/// An empty field is filled with the address of the first client that has one.
pub proof fn the_first_client_with_an_address_fills_the_field(clients: Seq<ClientInfo>, first: int)
    requires
        0 <= first < clients.len(),
        clients[first].ip is Some,
        forall|i: int| 0 <= i < first ==> (#[trigger] clients[i]).ip is None,
    ensures
        filled_in(Seq::empty(), clients) == clients[first].ip->0@,
{
    lemma_no_address(clients.take(first));
    assert(clients.take(first + 1).drop_last() =~= clients.take(first));
    lemma_first_address_stays(clients, first + 1);
}

proof fn lemma_no_address(clients: Seq<ClientInfo>)
    requires
        forall|i: int| 0 <= i < clients.len() ==> (#[trigger] clients[i]).ip is None,
    ensures
        addresses(clients).len() == 0,
    decreases clients.len(),
{
    if clients.len() > 0 {
        let before = clients.drop_last();
        assert(forall|i: int| 0 <= i < before.len() ==> #[trigger] before[i] == clients[i]);
        lemma_no_address(before);
        assert(clients[clients.len() - 1].ip is None);
    }
}

/// The line of addresses begins with the first one, and a comma and a space stand between it and the
/// line of the others.
pub proof fn addresses_are_joined_with_commas(first: Seq<char>, others: Seq<Seq<char>>)
    ensures
        joined(Seq::empty(), ", "@) == Seq::<char>::empty(),
        joined(seq![first], ", "@) == first,
        others.len() > 0 ==> joined(seq![first] + others, ", "@) == first + ", "@ + joined(
            others,
            ", "@,
        ),
    decreases others.len(),
{
    if others.len() > 0 {
        let all = seq![first] + others;
        assert(all.drop_last() =~= seq![first] + others.drop_last());
        assert(all.last() == others.last());
        if others.len() == 1 {
            assert(all.drop_last() =~= seq![first]);
            assert(joined(all, ", "@) =~= first + ", "@ + others[0]);
        } else {
            addresses_are_joined_with_commas(first, others.drop_last());
            assert(joined(all, ", "@) =~= first + ", "@ + joined(others, ", "@));
        }
    }
}

/// The line that lists the addresses is there exactly when there are clients; it is the addresses,
/// or a note where there is nothing to list.
pub proof fn the_line_lists_the_addresses(clients: Seq<ClientInfo>)
    ensures
        available_line(clients) is None <==> clients.len() == 0,
        clients.len() > 0 && joined(addresses(clients), ", "@).len() > 0 ==> available_line(clients)
            == Some(joined(addresses(clients), ", "@)),
        clients.len() > 0 && addresses(clients).len() == 0 ==> available_line(clients) == Some(
            "No IP available"@,
        ),
{
}

/// Each widget changes its own setting to what the user set, and no other; a click changes none.
pub proof fn each_widget_changes_its_own_setting(tab: MeasurementTab, event: UiEvent)
    ensures
        ({
            let next = ui_state(tab, event);
            &&& next.available_clients == tab.available_clients
            &&& next.client_ip_input == (if event is IpEdited {
                event->IpEdited_0
            } else {
                tab.client_ip_input
            })
            &&& next.frame_size_kb == (if event is FrameSizeChanged {
                event->FrameSizeChanged_0
            } else {
                tab.frame_size_kb
            })
            &&& next.frame_rate_hz == (if event is FrameRateChanged {
                event->FrameRateChanged_0
            } else {
                tab.frame_rate_hz
            })
            &&& next.duration_secs == (if event is DurationChanged {
                event->DurationChanged_0
            } else {
                tab.duration_secs
            })
            &&& !(event is StartClicked) && !(event is StopClicked) ==> next.test_running
                == tab.test_running
        }),
{
}

/// A start is asked for exactly when the start button is clicked with a valid address while no test
/// is running, and with the settings that are shown; a stop exactly when the stop button is clicked
/// while one is. A start makes the test run, and a stop ends it.
pub proof fn a_click_asks_for_what_is_shown(tab: MeasurementTab, event: UiEvent)
    ensures
        ({
            let request = ui_request(tab, event);
            let start = event is StartClicked && event->ip_valid && !tab.test_running;
            let stop = event is StopClicked && tab.test_running;
            let config = request->0->StartLatencyTest_0;
            &&& request is Some <==> start || stop
            &&& start ==> {
                &&& request->0 is StartLatencyTest
                &&& config.client_ip == tab.client_ip_input
                &&& config.frame_size_kb == tab.frame_size_kb
                &&& config.frame_rate_hz == tab.frame_rate_hz
                &&& config.duration_secs == tab.duration_secs
                &&& ui_state(tab, event).test_running
            }
            &&& stop ==> request->0 is StopLatencyTest && !ui_state(tab, event).test_running
            &&& !start && !stop ==> ui_state(tab, event).test_running == tab.test_running
        }),
{
}

/// The sliders go from 10 to 500 kilobytes, from 30 to 120 frames a second and from 5 to 120
/// seconds.
pub proof fn the_sliders_have_these_ranges(event: UiEvent)
    ensures
        event is FrameSizeChanged ==> (slider_in_range(event) <==> 10 <= event->FrameSizeChanged_0
            <= 500),
        event is FrameRateChanged ==> (slider_in_range(event) <==> 30 <= event->FrameRateChanged_0
            <= 120),
        event is DurationChanged ==> (slider_in_range(event) <==> 5 <= event->DurationChanged_0
            <= 120),
{
}

/// The start button is enabled for a valid address while no test is running, the stop button while
/// one is, and the note on an invalid address is shown where something that is none was typed.
pub proof fn buttons_and_notes_follow_the_state(
    tab: MeasurementTab,
    ip_valid: bool,
    start: bool,
    stop: bool,
    note: bool,
)
    requires
        call_ensures(MeasurementTab::can_start, (&tab, ip_valid), start),
        call_ensures(MeasurementTab::can_stop, (&tab,), stop),
        call_ensures(MeasurementTab::shows_invalid_ip, (&tab, ip_valid), note),
    ensures
        start <==> ip_valid && !tab.test_running,
        stop <==> tab.test_running,
        note <==> !ip_valid && tab.client_ip_input@.len() > 0,
        !(start && stop),
{
}

} // verus!
