//! The addresses under which the device can be reached: every IPv4 address of every network
//! interface that is up and is not a loopback.

use vstd::prelude::*;
use vstd::string::*;
use crate::android::{
    AndroidCall, AndroidReply, Arg, CallView, Target,
};
use crate::packets::IpAddress;

verus! {

/// The address that stands for none in particular.
pub const UNSPECIFIED: [u8; 4] = [0, 0, 0, 0];

/// What the enumeration is waiting to hear about.
#[derive(Clone, Copy, Debug, PartialEq, Eq)]
pub enum Stage {
    Starting,
    FindingClass,
    ListingInterfaces,
    InterfaceMore,
    InterfaceNext,
    CheckingLoopback,
    CheckingUp,
    ListingAddresses,
    AddressMore,
    AddressNext,
    AskingHost,
    ReadingHost,
    ParsingHost,
    Done,
}

/// What happened.
#[derive(Debug, PartialEq, Eq)]
pub enum LocalIpsEvent {
    /// The enumeration begins.
    Begin,
    /// A call came back.
    Reply(AndroidReply),
    /// A text was read as an address, or is none.
    Parsed(Option<IpAddress>),
}

/// What the enumeration does.
#[derive(Debug, PartialEq, Eq)]
pub enum LocalIpsStep {
    /// Make this call.
    Ask(AndroidCall),
    /// Read this text as an address.
    ParseIp(String),
    /// These are the addresses.
    Return(Vec<IpAddress>),
}

/// What the enumeration does, with texts and lists as sequences.
pub enum LocalIpsStepView {
    Ask(CallView),
    ParseIp(Seq<char>),
    Return(Seq<IpAddress>),
}

impl View for LocalIpsStep {
    type V = LocalIpsStepView;

    open spec fn view(&self) -> LocalIpsStepView {
        match *self {
            LocalIpsStep::Ask(call) => LocalIpsStepView::Ask(call@),
            LocalIpsStep::ParseIp(text) => LocalIpsStepView::ParseIp(text@),
            LocalIpsStep::Return(ips) => LocalIpsStepView::Return(ips@),
        }
    }
}

/// State of the enumeration.
#[derive(Debug, PartialEq, Eq)]
pub struct LocalIps {
    pub stage: Stage,
    /// The addresses found so far.
    pub ips: Vec<IpAddress>,
    /// The enumeration of interfaces.
    pub interfaces: u64,
    /// The interface that is being looked at.
    pub interface: u64,
    /// The enumeration of its addresses.
    pub addresses: u64,
}

/// State of the enumeration, with the addresses as a sequence.
#[verifier::ext_equal]
pub struct LocalIpsView {
    pub stage: Stage,
    pub ips: Seq<IpAddress>,
    pub interfaces: u64,
    pub interface: u64,
    pub addresses: u64,
}

impl View for LocalIps {
    type V = LocalIpsView;

    open spec fn view(&self) -> LocalIpsView {
        LocalIpsView {
            stage: self.stage,
            ips: self.ips@,
            interfaces: self.interfaces,
            interface: self.interface,
            addresses: self.addresses,
        }
    }
}

/// A call of a method without arguments.
pub open spec fn plain_call(object: u64, name: Seq<char>, sig: Seq<char>) -> LocalIpsStepView {
    LocalIpsStepView::Ask(
        CallView::Method { target: Target::Object(object), name, sig, args: Seq::<Arg>::empty() },
    )
}

/// Whether there is another element in an enumeration.
pub open spec fn has_more_call(enumeration: u64) -> LocalIpsStepView {
    plain_call(enumeration, "hasMoreElements"@, "()Z"@)
}

/// The next element of an enumeration.
pub open spec fn next_call(enumeration: u64) -> LocalIpsStepView {
    plain_call(enumeration, "nextElement"@, "()Ljava/lang/Object;"@)
}

/// A state at another stage.
pub open spec fn at_stage(s: LocalIpsView, stage: Stage) -> LocalIpsView {
    LocalIpsView { stage, ..s }
}

/// On to the next interface.
pub open spec fn more_interfaces(s: LocalIpsView) -> (LocalIpsView, LocalIpsStepView) {
    (at_stage(s, Stage::InterfaceMore), has_more_call(s.interfaces))
}

/// On to the next address of the interface.
pub open spec fn more_addresses(s: LocalIpsView) -> (LocalIpsView, LocalIpsStepView) {
    (at_stage(s, Stage::AddressMore), has_more_call(s.addresses))
}

/// The enumeration is over.
pub open spec fn finished(s: LocalIpsView) -> (LocalIpsView, LocalIpsStepView) {
    (at_stage(s, Stage::Done), LocalIpsStepView::Return(s.ips))
}

/// The next state and action. A call that fails is as good as an answer that leads no further:
/// an element that cannot be had is passed over, an interface that does not say that it is up, or
/// does not say that it is no loopback, is left out, and where there is no saying whether there is
/// more there is no more.
pub open spec fn local_ips_step(s: LocalIpsView, event: LocalIpsEvent) -> (
    LocalIpsView,
    LocalIpsStepView,
) {
    match s.stage {
        Stage::Starting => (
            at_stage(s, Stage::FindingClass),
            LocalIpsStepView::Ask(CallView::FindClass("java/net/NetworkInterface"@)),
        ),
        Stage::FindingClass => match event {
            LocalIpsEvent::Reply(AndroidReply::Object(class_object)) => (
                at_stage(s, Stage::ListingInterfaces),
                LocalIpsStepView::Ask(
                    CallView::StaticMethod {
                        class_object,
                        name: "getNetworkInterfaces"@,
                        sig: "()Ljava/util/Enumeration;"@,
                    },
                ),
            ),
            _ => finished(s),
        },
        Stage::ListingInterfaces => match event {
            LocalIpsEvent::Reply(AndroidReply::Object(interfaces)) => more_interfaces(
                LocalIpsView { interfaces, ..s },
            ),
            _ => finished(s),
        },
        Stage::InterfaceMore => match event {
            LocalIpsEvent::Reply(AndroidReply::Bool(true)) => (
                at_stage(s, Stage::InterfaceNext),
                next_call(s.interfaces),
            ),
            _ => finished(s),
        },
        Stage::InterfaceNext => match event {
            LocalIpsEvent::Reply(AndroidReply::Object(interface)) => (
                LocalIpsView { stage: Stage::CheckingLoopback, interface, ..s },
                plain_call(interface, "isLoopback"@, "()Z"@),
            ),
            _ => more_interfaces(s),
        },
        Stage::CheckingLoopback => match event {
            LocalIpsEvent::Reply(AndroidReply::Bool(false)) => (
                at_stage(s, Stage::CheckingUp),
                plain_call(s.interface, "isUp"@, "()Z"@),
            ),
            _ => more_interfaces(s),
        },
        Stage::CheckingUp => match event {
            LocalIpsEvent::Reply(AndroidReply::Bool(true)) => (
                at_stage(s, Stage::ListingAddresses),
                plain_call(s.interface, "getInetAddresses"@, "()Ljava/util/Enumeration;"@),
            ),
            _ => more_interfaces(s),
        },
        Stage::ListingAddresses => match event {
            LocalIpsEvent::Reply(AndroidReply::Object(addresses)) => more_addresses(
                LocalIpsView { addresses, ..s },
            ),
            _ => more_interfaces(s),
        },
        Stage::AddressMore => match event {
            LocalIpsEvent::Reply(AndroidReply::Bool(true)) => (
                at_stage(s, Stage::AddressNext),
                next_call(s.addresses),
            ),
            _ => more_interfaces(s),
        },
        Stage::AddressNext => match event {
            LocalIpsEvent::Reply(AndroidReply::Object(address)) => (
                at_stage(s, Stage::AskingHost),
                plain_call(address, "getHostAddress"@, "()Ljava/lang/String;"@),
            ),
            _ => more_addresses(s),
        },
        Stage::AskingHost => match event {
            LocalIpsEvent::Reply(AndroidReply::Object(host)) => (
                at_stage(s, Stage::ReadingHost),
                LocalIpsStepView::Ask(CallView::Text(host)),
            ),
            _ => more_addresses(s),
        },
        Stage::ReadingHost => match event {
            LocalIpsEvent::Reply(AndroidReply::Text(text)) => (
                at_stage(s, Stage::ParsingHost),
                LocalIpsStepView::ParseIp(text@),
            ),
            _ => more_addresses(s),
        },
        Stage::ParsingHost => match event {
            LocalIpsEvent::Parsed(Some(ip)) if ip is V4 => more_addresses(
                LocalIpsView { ips: s.ips.push(ip), ..s },
            ),
            _ => more_addresses(s),
        },
        Stage::Done => finished(s),
    }
}

/// The state in which the enumeration begins.
pub open spec fn fresh_enumeration() -> LocalIpsView {
    LocalIpsView {
        stage: Stage::Starting,
        ips: Seq::empty(),
        interfaces: 0,
        interface: 0,
        addresses: 0,
    }
}

fn ask(object: u64, name: &str, sig: &str) -> (step: LocalIpsStep)
    ensures
        step@ == plain_call(object, name@, sig@),
{
    LocalIpsStep::Ask(
        AndroidCall::Method {
            target: Target::Object(object),
            name: name.to_owned(),
            sig: sig.to_owned(),
            args: Vec::new(),
        },
    )
}

impl LocalIps {
    pub fn new() -> (s: Self)
        ensures
            s@ == fresh_enumeration(),
    {
        LocalIps {
            stage: Stage::Starting,
            ips: Vec::new(),
            interfaces: 0,
            interface: 0,
            addresses: 0,
        }
    }

    fn next_interface(&mut self) -> (step: LocalIpsStep)
        ensures
            (final(self)@, step@) == more_interfaces(old(self)@),
    {
        self.stage = Stage::InterfaceMore;
        ask(self.interfaces, "hasMoreElements", "()Z")
    }

    fn next_address(&mut self) -> (step: LocalIpsStep)
        ensures
            (final(self)@, step@) == more_addresses(old(self)@),
    {
        self.stage = Stage::AddressMore;
        ask(self.addresses, "hasMoreElements", "()Z")
    }

    fn finish(&mut self) -> (step: LocalIpsStep)
        ensures
            (final(self)@, step@) == finished(old(self)@),
    {
        self.stage = Stage::Done;
        LocalIpsStep::Return(vstd::slice::slice_to_vec(self.ips.as_slice()))
    }

    /// One turn of the enumeration.
    pub fn local_ips(&mut self, event: LocalIpsEvent) -> (step: LocalIpsStep)
        ensures
            (final(self)@, step@) == local_ips_step(old(self)@, event),
    {
        match (self.stage, event) {
            (Stage::Starting, _) => {
                self.stage = Stage::FindingClass;
                LocalIpsStep::Ask(AndroidCall::FindClass("java/net/NetworkInterface".to_owned()))
            },
            (
                Stage::FindingClass,
                LocalIpsEvent::Reply(AndroidReply::Object(class_object)),
            ) => {
                self.stage = Stage::ListingInterfaces;
                LocalIpsStep::Ask(
                    AndroidCall::StaticMethod {
                        class_object,
                        name: "getNetworkInterfaces".to_owned(),
                        sig: "()Ljava/util/Enumeration;".to_owned(),
                    },
                )
            },
            (
                Stage::ListingInterfaces,
                LocalIpsEvent::Reply(AndroidReply::Object(interfaces)),
            ) => {
                self.interfaces = interfaces;
                self.next_interface()
            },
            (Stage::InterfaceMore, LocalIpsEvent::Reply(AndroidReply::Bool(true))) => {
                self.stage = Stage::InterfaceNext;
                ask(self.interfaces, "nextElement", "()Ljava/lang/Object;")
            },
            (Stage::FindingClass, _)
            | (Stage::ListingInterfaces, _)
            | (Stage::InterfaceMore, _)
            | (Stage::Done, _) => self.finish(),
            (Stage::InterfaceNext, LocalIpsEvent::Reply(AndroidReply::Object(interface))) => {
                self.stage = Stage::CheckingLoopback;
                self.interface = interface;
                ask(interface, "isLoopback", "()Z")
            },
            (Stage::CheckingLoopback, LocalIpsEvent::Reply(AndroidReply::Bool(false))) => {
                self.stage = Stage::CheckingUp;
                ask(self.interface, "isUp", "()Z")
            },
            (Stage::CheckingUp, LocalIpsEvent::Reply(AndroidReply::Bool(true))) => {
                self.stage = Stage::ListingAddresses;
                ask(self.interface, "getInetAddresses", "()Ljava/util/Enumeration;")
            },
            (Stage::ListingAddresses, LocalIpsEvent::Reply(AndroidReply::Object(addresses))) => {
                self.addresses = addresses;
                self.next_address()
            },
            (Stage::AddressMore, LocalIpsEvent::Reply(AndroidReply::Bool(true))) => {
                self.stage = Stage::AddressNext;
                ask(self.addresses, "nextElement", "()Ljava/lang/Object;")
            },
            (Stage::InterfaceNext, _)
            | (Stage::CheckingLoopback, _)
            | (Stage::CheckingUp, _)
            | (Stage::ListingAddresses, _)
            | (Stage::AddressMore, _) => self.next_interface(),
            (Stage::AddressNext, LocalIpsEvent::Reply(AndroidReply::Object(address))) => {
                self.stage = Stage::AskingHost;
                ask(address, "getHostAddress", "()Ljava/lang/String;")
            },
            (Stage::AskingHost, LocalIpsEvent::Reply(AndroidReply::Object(host))) => {
                self.stage = Stage::ReadingHost;
                LocalIpsStep::Ask(AndroidCall::Text(host))
            },
            (Stage::ReadingHost, LocalIpsEvent::Reply(AndroidReply::Text(text))) => {
                self.stage = Stage::ParsingHost;
                LocalIpsStep::ParseIp(text)
            },
            (Stage::ParsingHost, LocalIpsEvent::Parsed(Some(IpAddress::V4(octets)))) => {
                self.ips.push(IpAddress::V4(octets));
                self.next_address()
            },
            (Stage::AddressNext, _)
            | (Stage::AskingHost, _)
            | (Stage::ReadingHost, _)
            | (Stage::ParsingHost, _) => self.next_address(),
        }
    }
}

/// The device's address: the first of its addresses, or the unspecified one where it has none.
pub fn local_ip(ips: &Vec<IpAddress>) -> (ip: IpAddress)
    ensures
        ip == (if ips@.len() > 0 {
            ips@[0]
        } else {
            IpAddress::V4(UNSPECIFIED)
        }),
{
    if ips.len() > 0 {
        ips[0]
    } else {
        IpAddress::V4(UNSPECIFIED)
    }
}

/// An address of an interface, as the runtime answers for it: the object, the string that names
/// the host, its text, and what the text is read as; each is missing where the call fails.
pub struct AddressModel {
    pub object: Option<u64>,
    pub host: Option<u64>,
    pub text: Option<String>,
    pub parsed: Option<IpAddress>,
}

/// An interface, as the runtime answers for it.
pub struct InterfaceModel {
    pub object: Option<u64>,
    pub loopback: Option<bool>,
    pub up: Option<bool>,
    /// The enumeration of its addresses.
    pub enumeration: Option<u64>,
    /// The addresses up to where the listing of them ends.
    pub addresses: Seq<AddressModel>,
    /// Whether the listing ends because asking for more fails.
    pub broken_off: bool,
}

/// Whether an interface says that it is no loopback and that it is up, and lists its addresses.
pub open spec fn is_active(interface: InterfaceModel) -> bool {
    &&& interface.object is Some
    &&& interface.loopback == Some(false)
    &&& interface.up == Some(true)
    &&& interface.enumeration is Some
}

/// Whether an address is an IPv4 address that can be read.
pub open spec fn is_usable(address: AddressModel) -> bool {
    &&& address.object is Some
    &&& address.host is Some
    &&& address.text is Some
    &&& address.parsed is Some
    &&& address.parsed->0 is V4
}

/// The usable ones among some addresses, in their order.
pub open spec fn usable_ips(addresses: Seq<AddressModel>) -> Seq<IpAddress>
    decreases addresses.len(),
{
    if addresses.len() == 0 {
        Seq::empty()
    } else {
        let before = usable_ips(addresses.drop_last());
        if is_usable(addresses.last()) {
            before.push(addresses.last().parsed->0)
        } else {
            before
        }
    }
}

/// The usable addresses of the active ones among some interfaces, in their order.
pub open spec fn reachable_ips(interfaces: Seq<InterfaceModel>) -> Seq<IpAddress>
    decreases interfaces.len(),
{
    if interfaces.len() == 0 {
        Seq::empty()
    } else {
        let before = reachable_ips(interfaces.drop_last());
        if is_active(interfaces.last()) {
            before + usable_ips(interfaces.last().addresses)
        } else {
            before
        }
    }
}

/// The reply that brings an object, or a failure.
pub open spec fn object_reply(object: Option<u64>) -> LocalIpsEvent {
    LocalIpsEvent::Reply(
        match object {
            Some(o) => AndroidReply::Object(o),
            None => AndroidReply::Failed,
        },
    )
}

/// The reply that brings a truth value, or a failure.
pub open spec fn bool_reply(b: Option<bool>) -> LocalIpsEvent {
    LocalIpsEvent::Reply(
        match b {
            Some(b) => AndroidReply::Bool(b),
            None => AndroidReply::Failed,
        },
    )
}

/// The answer that ends a listing: there is no more, or asking for more fails.
pub open spec fn end_reply(broken_off: bool) -> LocalIpsEvent {
    bool_reply(
        if broken_off {
            None
        } else {
            Some(false)
        },
    )
}

/// The answers that the enumeration gets on one address: as many as it asks for.
pub open spec fn address_events(address: AddressModel) -> Seq<LocalIpsEvent> {
    let more = seq![bool_reply(Some(true)), object_reply(address.object)];
    if address.object is None {
        more
    } else if address.host is None {
        more + seq![object_reply(None)]
    } else if address.text is None {
        more + seq![object_reply(address.host), LocalIpsEvent::Reply(AndroidReply::Failed)]
    } else {
        more + seq![
            object_reply(address.host),
            LocalIpsEvent::Reply(AndroidReply::Text(address.text->0)),
            LocalIpsEvent::Parsed(address.parsed),
        ]
    }
}

/// The answers that the enumeration gets on some addresses.
pub open spec fn addresses_events(addresses: Seq<AddressModel>) -> Seq<LocalIpsEvent>
    decreases addresses.len(),
{
    if addresses.len() == 0 {
        Seq::empty()
    } else {
        addresses_events(addresses.drop_last()) + address_events(addresses.last())
    }
}

/// The answers that the enumeration gets on one interface: as many as it asks for.
pub open spec fn interface_events(interface: InterfaceModel) -> Seq<LocalIpsEvent> {
    let more = seq![bool_reply(Some(true)), object_reply(interface.object)];
    if interface.object is None {
        more
    } else if interface.loopback != Some(false) {
        more + seq![bool_reply(interface.loopback)]
    } else if interface.up != Some(true) {
        more + seq![bool_reply(interface.loopback), bool_reply(interface.up)]
    } else {
        let listed = more + seq![
            bool_reply(interface.loopback),
            bool_reply(interface.up),
            object_reply(interface.enumeration),
        ];
        if interface.enumeration is None {
            listed
        } else {
            listed + addresses_events(interface.addresses) + seq![end_reply(interface.broken_off)]
        }
    }
}

/// The answers that the enumeration gets on some interfaces.
pub open spec fn interfaces_events(interfaces: Seq<InterfaceModel>) -> Seq<LocalIpsEvent>
    decreases interfaces.len(),
{
    if interfaces.len() == 0 {
        Seq::empty()
    } else {
        interfaces_events(interfaces.drop_last()) + interface_events(interfaces.last())
    }
}

/// A runtime, as it answers: the class of interfaces, the listing of them, the interfaces up to
/// where the listing ends, and whether it ends because asking for more fails.
pub struct RuntimeModel {
    pub class_object: Option<u64>,
    pub list: Option<u64>,
    pub interfaces: Seq<InterfaceModel>,
    pub broken_off: bool,
}

/// The addresses that there are to find: none where the interfaces cannot be listed.
pub open spec fn runtime_ips(runtime: RuntimeModel) -> Seq<IpAddress> {
    if runtime.class_object is Some && runtime.list is Some {
        reachable_ips(runtime.interfaces)
    } else {
        Seq::empty()
    }
}

/// All answers of a runtime, from the beginning to the end: as many as the enumeration asks for.
pub open spec fn runtime_events(runtime: RuntimeModel) -> Seq<LocalIpsEvent> {
    let found = seq![LocalIpsEvent::Begin, object_reply(runtime.class_object)];
    if runtime.class_object is None {
        found
    } else if runtime.list is None {
        found + seq![object_reply(None)]
    } else {
        found + seq![object_reply(runtime.list)] + interfaces_events(runtime.interfaces) + seq![
            end_reply(runtime.broken_off),
        ]
    }
}

/// The state after a row of events.
pub open spec fn enumeration_after(s: LocalIpsView, events: Seq<LocalIpsEvent>) -> LocalIpsView
    decreases events.len(),
{
    if events.len() == 0 {
        s
    } else {
        local_ips_step(enumeration_after(s, events.drop_last()), events.last()).0
    }
}

proof fn lemma_after_concat(s: LocalIpsView, a: Seq<LocalIpsEvent>, b: Seq<LocalIpsEvent>)
    ensures
        enumeration_after(s, a + b) == enumeration_after(enumeration_after(s, a), b),
    decreases b.len(),
{
    if b.len() == 0 {
        assert(a + b =~= a);
    } else {
        assert((a + b).drop_last() =~= a + b.drop_last());
        lemma_after_concat(s, a, b.drop_last());
    }
}

proof fn lemma_after_one(s: LocalIpsView, e: LocalIpsEvent)
    ensures
        enumeration_after(s, seq![e]) == local_ips_step(s, e).0,
{
    assert(seq![e].drop_last() =~= Seq::empty());
    reveal_with_fuel(enumeration_after, 2);
}

proof fn lemma_after_two(s: LocalIpsView, a: LocalIpsEvent, b: LocalIpsEvent)
    ensures
        enumeration_after(s, seq![a, b]) == local_ips_step(local_ips_step(s, a).0, b).0,
{
    assert(seq![a, b] =~= seq![a] + seq![b]);
    lemma_after_concat(s, seq![a], seq![b]);
    lemma_after_one(s, a);
    lemma_after_one(local_ips_step(s, a).0, b);
}

proof fn lemma_after_three(s: LocalIpsView, a: LocalIpsEvent, b: LocalIpsEvent, c: LocalIpsEvent)
    ensures
        enumeration_after(s, seq![a, b, c]) == local_ips_step(
            local_ips_step(local_ips_step(s, a).0, b).0,
            c,
        ).0,
{
    assert(seq![a, b, c] =~= seq![a, b] + seq![c]);
    lemma_after_concat(s, seq![a, b], seq![c]);
    lemma_after_two(s, a, b);
    lemma_after_one(local_ips_step(local_ips_step(s, a).0, b).0, c);
}

proof fn lemma_one_address(s: LocalIpsView, address: AddressModel)
    requires
        s.stage is AddressMore,
    ensures
        enumeration_after(s, address_events(address)) == (LocalIpsView {
            ips: if is_usable(address) {
                s.ips.push(address.parsed->0)
            } else {
                s.ips
            },
            ..s
        }),
{
    let e0 = bool_reply(Some(true));
    let e1 = object_reply(address.object);
    let more = seq![e0, e1];
    lemma_after_two(s, e0, e1);
    let s2 = local_ips_step(local_ips_step(s, e0).0, e1).0;
    if address.object is Some {
        if address.host is None {
            lemma_after_concat(s, more, seq![object_reply(None)]);
            lemma_after_one(s2, object_reply(None));
        } else if address.text is None {
            let a = object_reply(address.host);
            let b = LocalIpsEvent::Reply(AndroidReply::Failed);
            lemma_after_concat(s, more, seq![a, b]);
            lemma_after_two(s2, a, b);
        } else {
            let a = object_reply(address.host);
            let b = LocalIpsEvent::Reply(AndroidReply::Text(address.text->0));
            let c = LocalIpsEvent::Parsed(address.parsed);
            lemma_after_concat(s, more, seq![a, b, c]);
            lemma_after_three(s2, a, b, c);
        }
    }
}

proof fn lemma_addresses(s: LocalIpsView, addresses: Seq<AddressModel>)
    requires
        s.stage is AddressMore,
    ensures
        enumeration_after(s, addresses_events(addresses)) == (LocalIpsView {
            ips: s.ips + usable_ips(addresses),
            ..s
        }),
    decreases addresses.len(),
{
    if addresses.len() == 0 {
        assert(s.ips + usable_ips(addresses) =~= s.ips);
    } else {
        lemma_addresses(s, addresses.drop_last());
        lemma_after_concat(
            s,
            addresses_events(addresses.drop_last()),
            address_events(addresses.last()),
        );
        let s1 = enumeration_after(s, addresses_events(addresses.drop_last()));
        lemma_one_address(s1, addresses.last());
        assert(enumeration_after(s, addresses_events(addresses)).ips =~= s.ips + usable_ips(
            addresses,
        ));
    }
}

proof fn lemma_one_interface(s: LocalIpsView, interface: InterfaceModel)
    requires
        s.stage is InterfaceMore,
    ensures
        ({
            let after = enumeration_after(s, interface_events(interface));
            &&& after.stage is InterfaceMore
            &&& after.interfaces == s.interfaces
            &&& after.ips == if is_active(interface) {
                s.ips + usable_ips(interface.addresses)
            } else {
                s.ips
            }
        }),
{
    let e0 = bool_reply(Some(true));
    let e1 = object_reply(interface.object);
    let more = seq![e0, e1];
    lemma_after_two(s, e0, e1);
    let s2 = local_ips_step(local_ips_step(s, e0).0, e1).0;
    if interface.object is Some {
        let a = bool_reply(interface.loopback);
        let b = bool_reply(interface.up);
        let c = object_reply(interface.enumeration);
        if interface.loopback != Some(false) {
            lemma_after_concat(s, more, seq![a]);
            lemma_after_one(s2, a);
        } else if interface.up != Some(true) {
            lemma_after_concat(s, more, seq![a, b]);
            lemma_after_two(s2, a, b);
        } else {
            let listed = more + seq![a, b, c];
            lemma_after_concat(s, more, seq![a, b, c]);
            lemma_after_three(s2, a, b, c);
            if interface.enumeration is Some {
                let s5 = enumeration_after(s, listed);
                let end = end_reply(interface.broken_off);
                lemma_after_concat(s, listed, addresses_events(interface.addresses));
                lemma_addresses(s5, interface.addresses);
                let s6 = enumeration_after(s5, addresses_events(interface.addresses));
                lemma_after_concat(
                    s,
                    listed + addresses_events(interface.addresses),
                    seq![end],
                );
                lemma_after_one(s6, end);
            }
        }
    }
}

proof fn lemma_interfaces(s: LocalIpsView, interfaces: Seq<InterfaceModel>)
    requires
        s.stage is InterfaceMore,
    ensures
        ({
            let after = enumeration_after(s, interfaces_events(interfaces));
            &&& after.stage is InterfaceMore
            &&& after.interfaces == s.interfaces
            &&& after.ips == s.ips + reachable_ips(interfaces)
        }),
    decreases interfaces.len(),
{
    if interfaces.len() == 0 {
        assert(s.ips + reachable_ips(interfaces) =~= s.ips);
    } else {
        lemma_interfaces(s, interfaces.drop_last());
        lemma_after_concat(
            s,
            interfaces_events(interfaces.drop_last()),
            interface_events(interfaces.last()),
        );
        let s1 = enumeration_after(s, interfaces_events(interfaces.drop_last()));
        lemma_one_interface(s1, interfaces.last());
        assert(enumeration_after(s, interfaces_events(interfaces)).ips =~= s.ips + reachable_ips(
            interfaces,
        ));
    }
}

/// Whatever interfaces there are and whichever calls fail, the last answer brings the enumeration
/// to its end, with exactly the readable IPv4 addresses of the interfaces that are up and are not
/// loopbacks, in the order in which the runtime lists them. A listing goes as far as the runtime
/// says that there is more; where saying so fails, it ends there.
pub proof fn enumeration_finds_exactly_the_reachable_addresses(runtime: RuntimeModel)
    ensures
        ({
            let events = runtime_events(runtime);
            let before = enumeration_after(fresh_enumeration(), events.drop_last());
            local_ips_step(before, events.last()).1 == LocalIpsStepView::Return(
                runtime_ips(runtime),
            )
        }),
{
    let s = fresh_enumeration();
    let events = runtime_events(runtime);
    let e0 = LocalIpsEvent::Begin;
    let e1 = object_reply(runtime.class_object);
    let e2 = object_reply(runtime.list);
    if runtime.class_object is None {
        assert(events.drop_last() =~= seq![e0]);
        lemma_after_one(s, e0);
    } else if runtime.list is None {
        assert(events.drop_last() =~= seq![e0, e1]);
        lemma_after_two(s, e0, e1);
    } else {
        let head = seq![e0, e1, e2];
        let interfaces = runtime.interfaces;
        lemma_after_three(s, e0, e1, e2);
        let s3 = enumeration_after(s, head);
        lemma_after_concat(s, head, interfaces_events(interfaces));
        lemma_interfaces(s3, interfaces);
        assert(events.drop_last() =~= head + interfaces_events(interfaces));
        assert(s3.ips + reachable_ips(interfaces) =~= reachable_ips(interfaces));
    }
}

/// Where the runtime fails to say whether there is more, there is no more: among the addresses of an
/// interface the enumeration goes on with the next interface, and among the interfaces it ends with
/// what was found.
pub proof fn a_listing_that_breaks_off_ends_there(s: LocalIpsView)
    ensures
        s.stage is AddressMore ==> local_ips_step(s, LocalIpsEvent::Reply(AndroidReply::Failed))
            == more_interfaces(s),
        s.stage is InterfaceMore ==> local_ips_step(
            s,
            LocalIpsEvent::Reply(AndroidReply::Failed),
        ).1 == LocalIpsStepView::Return(s.ips),
{
}

/// Only IPv4 addresses are ever found.
pub proof fn only_ipv4_addresses_are_found(s: LocalIpsView, event: LocalIpsEvent)
    requires
        forall|i: int| 0 <= i < s.ips.len() ==> #[trigger] s.ips[i] is V4,
    ensures
        forall|i: int|
            0 <= i < local_ips_step(s, event).0.ips.len() ==> #[trigger] local_ips_step(
                s,
                event,
            ).0.ips[i] is V4,
{
}

/// An interface adds its usable addresses, behind those of the interfaces before it, exactly when it
/// is there, says that it is no loopback, says that it is up, and lists its addresses; otherwise it
/// adds none.
pub proof fn an_interface_counts_when_it_is_up_and_no_loopback(
    before: Seq<InterfaceModel>,
    interface: InterfaceModel,
)
    ensures
        ({
            let ips = reachable_ips(before.push(interface));
            let counts = interface.object is Some && interface.loopback == Some(false)
                && interface.up == Some(true) && interface.enumeration is Some;
            &&& reachable_ips(Seq::empty()) == Seq::<IpAddress>::empty()
            &&& counts ==> ips == reachable_ips(before) + usable_ips(interface.addresses)
            &&& !counts ==> ips == reachable_ips(before)
        }),
{
    assert(before.push(interface).drop_last() =~= before);
}

/// An address is added exactly when it and its text can be had and the text is an IPv4 address; and
/// then it is the address that the text is read as.
pub proof fn an_address_counts_when_it_is_ipv4(before: Seq<AddressModel>, address: AddressModel)
    ensures
        ({
            let ips = usable_ips(before.push(address));
            let readable = address.object is Some && address.host is Some && address.text is Some;
            let is_ipv4 = address.parsed is Some && address.parsed->0 is V4;
            &&& usable_ips(Seq::empty()) == Seq::<IpAddress>::empty()
            &&& readable && is_ipv4 ==> ips == usable_ips(before).push(address.parsed->0)
            &&& !readable || !is_ipv4 ==> ips == usable_ips(before)
        }),
{
    assert(before.push(address).drop_last() =~= before);
}

/// What is asked of the runtime concerns the object that just came back: the interface, its
/// addresses, the address, and the string that names its host.
pub proof fn questions_are_about_what_came_back(s: LocalIpsView, object: u64, text: String)
    ensures
        ({
            let reply = LocalIpsEvent::Reply(AndroidReply::Object(object));
            let (next, action) = local_ips_step(s, reply);
            let call = action->Ask_0;
            &&& s.stage is FindingClass ==> call is StaticMethod && call->StaticMethod_class_object
                == object && call->StaticMethod_name == "getNetworkInterfaces"@
            &&& s.stage is ListingInterfaces ==> next.interfaces == object && action
                == plain_call(object, "hasMoreElements"@, "()Z"@)
            &&& s.stage is InterfaceNext ==> next.interface == object && action == plain_call(
                object,
                "isLoopback"@,
                "()Z"@,
            )
            &&& s.stage is ListingAddresses ==> next.addresses == object && action == plain_call(
                object,
                "hasMoreElements"@,
                "()Z"@,
            )
            &&& s.stage is AddressNext ==> action == plain_call(
                object,
                "getHostAddress"@,
                "()Ljava/lang/String;"@,
            )
            &&& s.stage is AskingHost ==> action == LocalIpsStepView::Ask(CallView::Text(object))
        }),
        s.stage is ReadingHost ==> local_ips_step(
            s,
            LocalIpsEvent::Reply(AndroidReply::Text(text)),
        ).1 == LocalIpsStepView::ParseIp(text@),
        s.stage is CheckingLoopback ==> local_ips_step(
            s,
            LocalIpsEvent::Reply(AndroidReply::Bool(false)),
        ).1 == plain_call(s.interface, "isUp"@, "()Z"@),
        s.stage is CheckingUp ==> local_ips_step(
            s,
            LocalIpsEvent::Reply(AndroidReply::Bool(true)),
        ).1 == plain_call(s.interface, "getInetAddresses"@, "()Ljava/util/Enumeration;"@),
        s.stage is InterfaceMore ==> local_ips_step(
            s,
            LocalIpsEvent::Reply(AndroidReply::Bool(true)),
        ).1 == plain_call(s.interfaces, "nextElement"@, "()Ljava/lang/Object;"@),
        s.stage is AddressMore ==> local_ips_step(
            s,
            LocalIpsEvent::Reply(AndroidReply::Bool(true)),
        ).1 == plain_call(s.addresses, "nextElement"@, "()Ljava/lang/Object;"@),
{
}

/// The device's address is the first one, whatever it is, and 0.0.0.0 where there is none.
pub proof fn the_device_s_address_is_its_first(ips: Vec<IpAddress>, ip: IpAddress)
    requires
        call_ensures(local_ip, (&ips,), ip),
    ensures
        ips@.len() > 0 ==> ip == ips@[0],
        ips@.len() == 0 ==> ip is V4 && ip->V4_0@ == seq![0u8, 0u8, 0u8, 0u8],
{
    if ips@.len() == 0 {
        assert(UNSPECIFIED@ =~= seq![0u8, 0u8, 0u8, 0u8]);
    }
}

} // verus!
