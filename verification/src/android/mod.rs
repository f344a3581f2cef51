//! What the client asks of the Android runtime.
//!
//! Each query is a function from the replies that have come back so far to what comes next: a
//! further call, the result, or the failure of the whole query. Objects of the runtime are known
//! by the numbers under which the caller keeps them.

use vstd::prelude::*;
use vstd::string::*;

pub mod local_ips;

verus! {

/// The permission to record sound.
pub const MICROPHONE_PERMISSION: &'static str = "android.permission.RECORD_AUDIO";

/// The first API level that has the low latency mode.
pub const LOW_LATENCY_API_LEVEL: i32 = 29;

/// Wifi mode that keeps scans from disturbing the stream.
pub const WIFI_MODE_FULL_LOW_LATENCY: i32 = 4;

/// Wifi mode for runtimes that do not have the other one.
pub const WIFI_MODE_FULL_HIGH_PERF: i32 = 3;

/// What a number that the battery's message lacks is read as.
pub const ABSENT_EXTRA: i32 = -1;

/// An argument of a call.
#[derive(Clone, Copy, Debug, PartialEq, Eq)]
pub enum Arg {
    Null,
    Object(u64),
    Int(i32),
    Bool(bool),
}

/// The object whose method is called.
#[derive(Clone, Copy, Debug, PartialEq, Eq)]
pub enum Target {
    /// The application's context.
    Context,
    Object(u64),
}

/// A call into the runtime.
#[derive(Debug, PartialEq, Eq)]
pub enum AndroidCall {
    /// Read a static field of a class.
    StaticField { class: String, name: String, sig: String },
    /// Call a static method, without arguments, of a class that was looked up.
    StaticMethod { class_object: u64, name: String, sig: String },
    /// Call a method of an object.
    Method { target: Target, name: String, sig: String, args: Vec<Arg> },
    /// Make an object with a constructor.
    NewObject { class: String, sig: String, args: Vec<Arg> },
    /// Make a string.
    NewString(String),
    /// Look up a class.
    FindClass(String),
    /// Make an array with every element the same.
    NewObjectArray { len: i32, class_object: u64, element: u64 },
    /// Read the text of a string.
    Text(u64),
}

/// A call into the runtime, with texts as sequences.
pub enum CallView {
    StaticField { class: Seq<char>, name: Seq<char>, sig: Seq<char> },
    StaticMethod { class_object: u64, name: Seq<char>, sig: Seq<char> },
    Method { target: Target, name: Seq<char>, sig: Seq<char>, args: Seq<Arg> },
    NewObject { class: Seq<char>, sig: Seq<char>, args: Seq<Arg> },
    NewString(Seq<char>),
    FindClass(Seq<char>),
    NewObjectArray { len: i32, class_object: u64, element: u64 },
    Text(u64),
}

impl View for AndroidCall {
    type V = CallView;

    open spec fn view(&self) -> CallView {
        match *self {
            AndroidCall::StaticField { class, name, sig } => CallView::StaticField {
                class: class@,
                name: name@,
                sig: sig@,
            },
            AndroidCall::StaticMethod { class_object, name, sig } => CallView::StaticMethod {
                class_object,
                name: name@,
                sig: sig@,
            },
            AndroidCall::Method { target, name, sig, args } => CallView::Method {
                target,
                name: name@,
                sig: sig@,
                args: args@,
            },
            AndroidCall::NewObject { class, sig, args } => CallView::NewObject {
                class: class@,
                sig: sig@,
                args: args@,
            },
            AndroidCall::NewString(s) => CallView::NewString(s@),
            AndroidCall::FindClass(s) => CallView::FindClass(s@),
            AndroidCall::NewObjectArray { len, class_object, element } => CallView::NewObjectArray {
                len,
                class_object,
                element,
            },
            AndroidCall::Text(object) => CallView::Text(object),
        }
    }
}

/// What came back from a call.
#[derive(Debug, PartialEq, Eq)]
pub enum AndroidReply {
    /// An object, a class or an array.
    Object(u64),
    Int(i32),
    Bool(bool),
    Text(String),
    /// The call has no result.
    Void,
    /// The call failed, or its result is not of the type that was asked for.
    Failed,
}

/// What has to come back from a call for a query to go on.
#[derive(Clone, Copy, Debug, PartialEq, Eq)]
pub enum ReplyKind {
    Object,
    Int,
    Bool,
    Text,
    /// Anything but a failure.
    Any,
}

/// Whether a reply is of a kind.
pub open spec fn is_kind(reply: AndroidReply, kind: ReplyKind) -> bool {
    match kind {
        ReplyKind::Object => reply is Object,
        ReplyKind::Int => reply is Int,
        ReplyKind::Bool => reply is Bool,
        ReplyKind::Text => reply is Text,
        ReplyKind::Any => !(reply is Failed),
    }
}

/// Whether each reply is of the kind that is due in its place.
pub open spec fn kinds_match(replies: Seq<AndroidReply>, kinds: Seq<ReplyKind>) -> bool {
    forall|i: int|
        0 <= i < replies.len() && i < kinds.len() ==> is_kind(#[trigger] replies[i], kinds[i])
}

/// What a query comes to.
#[derive(Debug, PartialEq, Eq)]
pub enum AndroidStep<T> {
    /// Make this call and go on with its reply.
    Ask(AndroidCall),
    /// The result.
    Return(T),
    /// A call did not give what the query needs; it cannot go on.
    Fail,
}

/// What a query comes to, with texts as sequences.
pub enum StepView<V> {
    Ask(CallView),
    Return(V),
    Fail,
}

impl<T: View> View for AndroidStep<T> {
    type V = StepView<T::V>;

    open spec fn view(&self) -> StepView<T::V> {
        match *self {
            AndroidStep::Ask(call) => StepView::Ask(call@),
            AndroidStep::Return(v) => StepView::Return(v@),
            AndroidStep::Fail => StepView::Fail,
        }
    }
}

/// A query that makes a row of calls: a reply of the wrong kind makes it fail, and when all
/// replies are there it has its result.
pub open spec fn query<V>(
    replies: Seq<AndroidReply>,
    kinds: Seq<ReplyKind>,
    call: CallView,
    result: V,
) -> StepView<V> {
    if !kinds_match(replies, kinds) {
        StepView::Fail
    } else if replies.len() < kinds.len() {
        StepView::Ask(call)
    } else {
        StepView::Return(result)
    }
}

fn all_kinds_match(replies: &Vec<AndroidReply>, kinds: &Vec<ReplyKind>) -> (r: bool)
    ensures
        r == kinds_match(replies@, kinds@),
{
    let mut i: usize = 0;
    while i < replies.len() && i < kinds.len()
        invariant
            i <= replies@.len(),
            i <= kinds@.len(),
            forall|k: int| 0 <= k < i ==> is_kind(#[trigger] replies@[k], kinds@[k]),
        decreases replies@.len() - i,
    {
        let ok: bool = match (&replies[i], kinds[i]) {
            (AndroidReply::Object(_), ReplyKind::Object) => true,
            (AndroidReply::Int(_), ReplyKind::Int) => true,
            (AndroidReply::Bool(_), ReplyKind::Bool) => true,
            (AndroidReply::Text(_), ReplyKind::Text) => true,
            (AndroidReply::Failed, ReplyKind::Any) => false,
            (_, ReplyKind::Any) => true,
            _ => false,
        };
        if !ok {
            assert(!is_kind(replies@[i as int], kinds@[i as int]));
            return false;
        }
        i = i + 1;
    }
    true
}

fn object_at(replies: &Vec<AndroidReply>, i: usize) -> (object: u64)
    requires
        i < replies@.len(),
        replies@[i as int] is Object,
    ensures
        object == replies@[i as int]->Object_0,
{
    match &replies[i] {
        AndroidReply::Object(object) => *object,
        _ => 0,
    }
}

fn int_at(replies: &Vec<AndroidReply>, i: usize) -> (value: i32)
    requires
        i < replies@.len(),
        replies@[i as int] is Int,
    ensures
        value == replies@[i as int]->Int_0,
{
    match &replies[i] {
        AndroidReply::Int(value) => *value,
        _ => 0,
    }
}

fn static_field(class: &str, name: &str, sig: &str) -> (call: AndroidCall)
    ensures
        call@ == (CallView::StaticField { class: class@, name: name@, sig: sig@ }),
{
    AndroidCall::StaticField { class: class.to_owned(), name: name.to_owned(), sig: sig.to_owned() }
}

fn method(target: Target, name: &str, sig: &str, args: Vec<Arg>) -> (call: AndroidCall)
    ensures
        call@ == (CallView::Method { target, name: name@, sig: sig@, args: args@ }),
{
    AndroidCall::Method { target, name: name.to_owned(), sig: sig.to_owned(), args }
}

fn new_string(text: &str) -> (call: AndroidCall)
    ensures
        call@ == CallView::NewString(text@),
{
    AndroidCall::NewString(text.to_owned())
}

fn no_args() -> (args: Vec<Arg>)
    ensures
        args@ == Seq::<Arg>::empty(),
{
    Vec::new()
}

fn one_arg(a: Arg) -> (args: Vec<Arg>)
    ensures
        args@ == seq![a],
{
    let mut args: Vec<Arg> = Vec::new();
    args.push(a);
    assert(args@ =~= seq![a]);
    args
}

fn two_args(a: Arg, b: Arg) -> (args: Vec<Arg>)
    ensures
        args@ == seq![a, b],
{
    let mut args: Vec<Arg> = Vec::new();
    args.push(a);
    args.push(b);
    assert(args@ =~= seq![a, b]);
    args
}

/// The call that reads the API level.
pub open spec fn api_level_call() -> CallView {
    CallView::StaticField {
        class: "android/os/Build$VERSION"@,
        name: "SDK_INT"@,
        sig: "I"@,
    }
}

/// The replies that the query for the API level needs.
pub open spec fn api_level_kinds() -> Seq<ReplyKind> {
    seq![ReplyKind::Int]
}

/// Asks for the API level of the runtime.
pub fn get_api_level(replies: &Vec<AndroidReply>) -> (step: AndroidStep<i32>)
    ensures
        step@ == query(replies@, api_level_kinds(), api_level_call(), replies@[0]->Int_0),
{
    let kinds: Vec<ReplyKind> = vec![ReplyKind::Int];
    assert(kinds@ =~= api_level_kinds());
    if !all_kinds_match(replies, &kinds) {
        return AndroidStep::Fail;
    }
    if replies.len() == 0 {
        AndroidStep::Ask(static_field("android/os/Build$VERSION", "SDK_INT", "I"))
    } else {
        assert(is_kind(replies@[0], kinds@[0]));
        AndroidStep::Return(int_at(replies, 0))
    }
}

/// The calls by which a text about the build is read.
pub open spec fn build_string_call(ty: Seq<char>, replies: Seq<AndroidReply>) -> CallView {
    if replies.len() == 0 {
        CallView::StaticField {
            class: "android/os/Build"@,
            name: ty,
            sig: "Ljava/lang/String;"@,
        }
    } else {
        CallView::Text(replies[0]->Object_0)
    }
}

/// The replies that the query for a text about the build needs.
pub open spec fn build_string_kinds() -> Seq<ReplyKind> {
    seq![ReplyKind::Object, ReplyKind::Text]
}

/// The query for a text about the build.
pub open spec fn build_string_query(ty: Seq<char>, replies: Seq<AndroidReply>) -> StepView<
    Seq<char>,
> {
    query(
        replies,
        build_string_kinds(),
        build_string_call(ty, replies),
        replies[1]->Text_0@,
    )
}

/// Asks for a text about the build: the field `ty` of the class that describes it.
pub fn build_string(ty: &str, replies: &Vec<AndroidReply>) -> (step: AndroidStep<String>)
    ensures
        step@ == build_string_query(ty@, replies@),
{
    let kinds: Vec<ReplyKind> = vec![ReplyKind::Object, ReplyKind::Text];
    assert(kinds@ =~= build_string_kinds());
    if !all_kinds_match(replies, &kinds) {
        return AndroidStep::Fail;
    }
    if replies.len() == 0 {
        return AndroidStep::Ask(static_field("android/os/Build", ty, "Ljava/lang/String;"));
    }
    assert(is_kind(replies@[0], kinds@[0]));
    if replies.len() == 1 {
        return AndroidStep::Ask(AndroidCall::Text(object_at(replies, 0)));
    }
    assert(is_kind(replies@[1], kinds@[1]));
    match &replies[1] {
        AndroidReply::Text(text) => AndroidStep::Return(text.clone()),
        _ => AndroidStep::Fail,
    }
}

/// Asks for the name of the device.
pub fn device_name(replies: &Vec<AndroidReply>) -> (step: AndroidStep<String>)
    ensures
        step@ == build_string_query("DEVICE"@, replies@),
{
    build_string("DEVICE", replies)
}

/// Asks for the name of the model.
pub fn model_name(replies: &Vec<AndroidReply>) -> (step: AndroidStep<String>)
    ensures
        step@ == build_string_query("MODEL"@, replies@),
{
    build_string("MODEL", replies)
}

/// Asks for the name of the manufacturer.
pub fn manufacturer_name(replies: &Vec<AndroidReply>) -> (step: AndroidStep<String>)
    ensures
        step@ == build_string_query("MANUFACTURER"@, replies@),
{
    build_string("MANUFACTURER", replies)
}

/// Asks for the name of the product.
pub fn product_name(replies: &Vec<AndroidReply>) -> (step: AndroidStep<String>)
    ensures
        step@ == build_string_query("PRODUCT"@, replies@),
{
    build_string("PRODUCT", replies)
}

/// The calls by which a permission is got: whether it is there is checked, and only if it is not
/// the user is asked for it.
pub open spec fn permission_call(permission: Seq<char>, replies: Seq<AndroidReply>) -> CallView {
    if replies.len() == 0 {
        CallView::NewString(permission)
    } else if replies.len() == 1 {
        CallView::Method {
            target: Target::Context,
            name: "checkSelfPermission"@,
            sig: "(Ljava/lang/String;)I"@,
            args: seq![Arg::Object(replies[0]->Object_0)],
        }
    } else if replies.len() == 2 {
        CallView::FindClass("java/lang/String"@)
    } else if replies.len() == 3 {
        CallView::NewObjectArray {
            len: 1,
            class_object: replies[2]->Object_0,
            element: replies[0]->Object_0,
        }
    } else {
        CallView::Method {
            target: Target::Context,
            name: "requestPermissions"@,
            sig: "([Ljava/lang/String;I)V"@,
            args: seq![Arg::Object(replies[3]->Object_0), Arg::Int(0)],
        }
    }
}

/// Whether the check has come back and says that the permission is there.
pub open spec fn permission_granted(replies: Seq<AndroidReply>) -> bool {
    replies.len() >= 2 && replies[1] == AndroidReply::Int(0)
}

/// The replies that getting a permission needs.
pub open spec fn permission_kinds(replies: Seq<AndroidReply>) -> Seq<ReplyKind> {
    if permission_granted(replies) {
        seq![ReplyKind::Object, ReplyKind::Int]
    } else {
        seq![
            ReplyKind::Object,
            ReplyKind::Int,
            ReplyKind::Object,
            ReplyKind::Object,
            ReplyKind::Any,
        ]
    }
}

/// Gets a permission, by asking the user if it is not there yet.
pub fn try_get_permission(permission: &str, replies: &Vec<AndroidReply>) -> (step: AndroidStep<()>)
    ensures
        step@ == query(
            replies@,
            permission_kinds(replies@),
            permission_call(permission@, replies@),
            (),
        ),
{
    let checked: Vec<ReplyKind> = vec![ReplyKind::Object, ReplyKind::Int];
    assert(checked@ =~= seq![ReplyKind::Object, ReplyKind::Int]);
    let granted: bool = if replies.len() >= 2 {
        match &replies[1] {
            AndroidReply::Int(status) => *status == 0,
            _ => false,
        }
    } else {
        false
    };
    assert(granted == permission_granted(replies@));
    if granted {
        if all_kinds_match(replies, &checked) {
            return AndroidStep::Return(());
        } else {
            return AndroidStep::Fail;
        }
    }
    let kinds: Vec<ReplyKind> = vec![
        ReplyKind::Object,
        ReplyKind::Int,
        ReplyKind::Object,
        ReplyKind::Object,
        ReplyKind::Any,
    ];
    assert(kinds@ =~= permission_kinds(replies@));
    if !all_kinds_match(replies, &kinds) {
        return AndroidStep::Fail;
    }
    if replies.len() == 0 {
        return AndroidStep::Ask(new_string(permission));
    }
    assert(is_kind(replies@[0], kinds@[0]));
    let text: u64 = object_at(replies, 0);
    if replies.len() == 1 {
        return AndroidStep::Ask(
            method(
                Target::Context,
                "checkSelfPermission",
                "(Ljava/lang/String;)I",
                one_arg(Arg::Object(text)),
            ),
        );
    }
    if replies.len() == 2 {
        return AndroidStep::Ask(AndroidCall::FindClass("java/lang/String".to_owned()));
    }
    assert(is_kind(replies@[2], kinds@[2]));
    if replies.len() == 3 {
        return AndroidStep::Ask(
            AndroidCall::NewObjectArray {
                len: 1,
                class_object: object_at(replies, 2),
                element: text,
            },
        );
    }
    assert(is_kind(replies@[3], kinds@[3]));
    if replies.len() == 4 {
        return AndroidStep::Ask(
            method(
                Target::Context,
                "requestPermissions",
                "([Ljava/lang/String;I)V",
                two_args(Arg::Object(object_at(replies, 3)), Arg::Int(0)),
            ),
        );
    }
    AndroidStep::Return(())
}

/// The user is asked for a permission only after the check has said that it is not there.
pub proof fn a_granted_permission_is_not_asked_for(
    permission: Seq<char>,
    replies: Seq<AndroidReply>,
)
    requires
        replies.len() >= 2,
    ensures
        permission_granted(replies) ==> !(query(
            replies,
            permission_kinds(replies),
            permission_call(permission, replies),
            (),
        ) is Ask),
        replies.len() == 2 && !permission_granted(replies) && replies[0] is Object
            && replies[1] is Int ==> query(
            replies,
            permission_kinds(replies),
            permission_call(permission, replies),
            (),
        ) == StepView::<()>::Ask(CallView::FindClass("java/lang/String"@)),
{
}

/// The calls by which a service of the system is looked up.
pub open spec fn system_service_call(service_name: Seq<char>, replies: Seq<AndroidReply>) -> CallView {
    if replies.len() == 0 {
        CallView::NewString(service_name)
    } else {
        CallView::Method {
            target: Target::Context,
            name: "getSystemService"@,
            sig: "(Ljava/lang/String;)Ljava/lang/Object;"@,
            args: seq![Arg::Object(replies[0]->Object_0)],
        }
    }
}

/// The replies that looking up a service needs.
pub open spec fn system_service_kinds() -> Seq<ReplyKind> {
    seq![ReplyKind::Object, ReplyKind::Object]
}

/// Looks up a service of the system.
pub fn get_system_service(service_name: &str, replies: &Vec<AndroidReply>) -> (step: AndroidStep<
    u64,
>)
    ensures
        step@ == query(
            replies@,
            system_service_kinds(),
            system_service_call(service_name@, replies@),
            replies@[1]->Object_0,
        ),
{
    let kinds: Vec<ReplyKind> = vec![ReplyKind::Object, ReplyKind::Object];
    assert(kinds@ =~= system_service_kinds());
    if !all_kinds_match(replies, &kinds) {
        return AndroidStep::Fail;
    }
    if replies.len() == 0 {
        return AndroidStep::Ask(new_string(service_name));
    }
    assert(is_kind(replies@[0], kinds@[0]));
    if replies.len() == 1 {
        return AndroidStep::Ask(
            method(
                Target::Context,
                "getSystemService",
                "(Ljava/lang/String;)Ljava/lang/Object;",
                one_arg(Arg::Object(object_at(replies, 0))),
            ),
        );
    }
    assert(is_kind(replies@[1], kinds@[1]));
    AndroidStep::Return(object_at(replies, 1))
}

/// The wifi mode that is asked for: the low latency mode where the runtime has it.
pub open spec fn wifi_mode(api_level: i32) -> i32 {
    if api_level >= LOW_LATENCY_API_LEVEL {
        WIFI_MODE_FULL_LOW_LATENCY
    } else {
        WIFI_MODE_FULL_HIGH_PERF
    }
}

/// The calls by which the wifi lock is taken or released. First the wifi service is looked up;
/// then a lock is made, in the mode for the API level; it is taken or released at once, however
/// often that was done before; and whether it is held is asked at the end.
pub open spec fn wifi_lock_call(enabled: bool, replies: Seq<AndroidReply>) -> CallView {
    let lock = Target::Object(replies[4]->Object_0);
    if replies.len() < 2 {
        system_service_call("wifi"@, replies)
    } else if replies.len() == 2 {
        CallView::NewString("alvr_wifi_lock"@)
    } else if replies.len() == 3 {
        api_level_call()
    } else if replies.len() == 4 {
        CallView::Method {
            target: Target::Object(replies[1]->Object_0),
            name: "createWifiLock"@,
            sig: "(ILjava/lang/String;)Landroid/net/wifi/WifiManager$WifiLock;"@,
            args: seq![
                Arg::Int(wifi_mode(replies[3]->Int_0)),
                Arg::Object(replies[2]->Object_0),
            ],
        }
    } else if replies.len() == 5 {
        CallView::Method {
            target: lock,
            name: "setReferenceCounted"@,
            sig: "(Z)V"@,
            args: seq![Arg::Bool(false)],
        }
    } else if replies.len() == 6 {
        CallView::Method {
            target: lock,
            name: if enabled {
                "acquire"@
            } else {
                "release"@
            },
            sig: "()V"@,
            args: Seq::empty(),
        }
    } else {
        CallView::Method { target: lock, name: "isHeld"@, sig: "()Z"@, args: Seq::empty() }
    }
}

/// The replies that setting the wifi lock needs.
pub open spec fn wifi_lock_kinds() -> Seq<ReplyKind> {
    seq![
        ReplyKind::Object,
        ReplyKind::Object,
        ReplyKind::Object,
        ReplyKind::Int,
        ReplyKind::Object,
        ReplyKind::Any,
        ReplyKind::Any,
        ReplyKind::Bool,
    ]
}

/// Takes or releases the wifi lock. The result says whether it is now as it was wanted; where it
/// is not, a warning is due.
pub fn set_wifi_lock(enabled: bool, replies: &Vec<AndroidReply>) -> (step: AndroidStep<bool>)
    ensures
        step@ == query(
            replies@,
            wifi_lock_kinds(),
            wifi_lock_call(enabled, replies@),
            replies@[7]->Bool_0 == enabled,
        ),
{
    let kinds: Vec<ReplyKind> = vec![
        ReplyKind::Object,
        ReplyKind::Object,
        ReplyKind::Object,
        ReplyKind::Int,
        ReplyKind::Object,
        ReplyKind::Any,
        ReplyKind::Any,
        ReplyKind::Bool,
    ];
    assert(kinds@ =~= wifi_lock_kinds());
    if !all_kinds_match(replies, &kinds) {
        return AndroidStep::Fail;
    }
    if replies.len() < 2 {
        proof {
            assert forall|i: int| 0 <= i < replies@.len() && i < 2 implies is_kind(
                #[trigger] replies@[i],
                system_service_kinds()[i],
            ) by {
                assert(is_kind(replies@[i], kinds@[i]));
            }
        }
        return match get_system_service("wifi", replies) {
            AndroidStep::Ask(call) => AndroidStep::Ask(call),
            _ => AndroidStep::Fail,
        };
    }
    if replies.len() == 2 {
        return AndroidStep::Ask(new_string("alvr_wifi_lock"));
    }
    if replies.len() == 3 {
        return AndroidStep::Ask(static_field("android/os/Build$VERSION", "SDK_INT", "I"));
    }
    assert(is_kind(replies@[1], kinds@[1]));
    assert(is_kind(replies@[2], kinds@[2]));
    assert(is_kind(replies@[3], kinds@[3]));
    if replies.len() == 4 {
        let mode: i32 = if int_at(replies, 3) >= LOW_LATENCY_API_LEVEL {
            WIFI_MODE_FULL_LOW_LATENCY
        } else {
            WIFI_MODE_FULL_HIGH_PERF
        };
        return AndroidStep::Ask(
            method(
                Target::Object(object_at(replies, 1)),
                "createWifiLock",
                "(ILjava/lang/String;)Landroid/net/wifi/WifiManager$WifiLock;",
                two_args(Arg::Int(mode), Arg::Object(object_at(replies, 2))),
            ),
        );
    }
    assert(is_kind(replies@[4], kinds@[4]));
    let lock: Target = Target::Object(object_at(replies, 4));
    if replies.len() == 5 {
        return AndroidStep::Ask(
            method(lock, "setReferenceCounted", "(Z)V", one_arg(Arg::Bool(false))),
        );
    }
    if replies.len() == 6 {
        return AndroidStep::Ask(
            if enabled {
                method(lock, "acquire", "()V", no_args())
            } else {
                method(lock, "release", "()V", no_args())
            },
        );
    }
    if replies.len() == 7 {
        return AndroidStep::Ask(method(lock, "isHeld", "()Z", no_args()));
    }
    assert(is_kind(replies@[7], kinds@[7]));
    match &replies[7] {
        AndroidReply::Bool(held) => AndroidStep::Return(*held == enabled),
        _ => AndroidStep::Fail,
    }
}

/// What the battery says of itself. The charge is the ratio of `level` to `scale`.
#[derive(Clone, Copy, Debug, PartialEq, Eq)]
pub struct BatteryReading {
    pub level: i32,
    pub scale: i32,
    pub plugged: bool,
}

impl View for BatteryReading {
    type V = BatteryReading;

    open spec fn view(&self) -> BatteryReading {
        *self
    }
}

/// The name of the `k`-th number that is read from the battery's message.
pub open spec fn battery_extra(k: int) -> Seq<char> {
    if k == 0 {
        "level"@
    } else if k == 1 {
        "scale"@
    } else {
        "plugged"@
    }
}

/// The calls by which the battery is asked: the message that the system keeps about it is fetched,
/// and three numbers are read from it, each by making its name a string first.
pub open spec fn battery_call(replies: Seq<AndroidReply>) -> CallView {
    let n = replies.len() as int;
    if n == 0 {
        CallView::NewString("android.intent.action.BATTERY_CHANGED"@)
    } else if n == 1 {
        CallView::NewObject {
            class: "android/content/IntentFilter"@,
            sig: "(Ljava/lang/String;)V"@,
            args: seq![Arg::Object(replies[0]->Object_0)],
        }
    } else if n == 2 {
        CallView::Method {
            target: Target::Context,
            name: "registerReceiver"@,
            sig:
                "(Landroid/content/BroadcastReceiver;Landroid/content/IntentFilter;)Landroid/content/Intent;"@,
            args: seq![Arg::Null, Arg::Object(replies[1]->Object_0)],
        }
    } else if n % 2 == 1 {
        CallView::NewString(battery_extra((n - 3) / 2))
    } else {
        CallView::Method {
            target: Target::Object(replies[2]->Object_0),
            name: "getIntExtra"@,
            sig: "(Ljava/lang/String;I)I"@,
            args: seq![Arg::Object(replies[n - 1]->Object_0), Arg::Int(ABSENT_EXTRA)],
        }
    }
}

/// The replies that asking the battery needs.
pub open spec fn battery_kinds() -> Seq<ReplyKind> {
    seq![
        ReplyKind::Object,
        ReplyKind::Object,
        ReplyKind::Object,
        ReplyKind::Object,
        ReplyKind::Int,
        ReplyKind::Object,
        ReplyKind::Int,
        ReplyKind::Object,
        ReplyKind::Int,
    ]
}

/// What the replies say of the battery: it is plugged in where that number is positive.
pub open spec fn battery_reading(replies: Seq<AndroidReply>) -> BatteryReading {
    BatteryReading {
        level: replies[4]->Int_0,
        scale: replies[6]->Int_0,
        plugged: replies[8]->Int_0 > 0,
    }
}

fn int_extra(intent: u64, name: u64) -> (call: AndroidCall)
    ensures
        call@ == (CallView::Method {
            target: Target::Object(intent),
            name: "getIntExtra"@,
            sig: "(Ljava/lang/String;I)I"@,
            args: seq![Arg::Object(name), Arg::Int(ABSENT_EXTRA)],
        }),
{
    method(
        Target::Object(intent),
        "getIntExtra",
        "(Ljava/lang/String;I)I",
        two_args(Arg::Object(name), Arg::Int(ABSENT_EXTRA)),
    )
}

/// Asks for the state of the battery.
pub fn get_battery_status(replies: &Vec<AndroidReply>) -> (step: AndroidStep<BatteryReading>)
    ensures
        step@ == query(
            replies@,
            battery_kinds(),
            battery_call(replies@),
            battery_reading(replies@),
        ),
{
    let kinds: Vec<ReplyKind> = vec![
        ReplyKind::Object,
        ReplyKind::Object,
        ReplyKind::Object,
        ReplyKind::Object,
        ReplyKind::Int,
        ReplyKind::Object,
        ReplyKind::Int,
        ReplyKind::Object,
        ReplyKind::Int,
    ];
    assert(kinds@ =~= battery_kinds());
    if !all_kinds_match(replies, &kinds) {
        return AndroidStep::Fail;
    }
    if replies.len() == 0 {
        return AndroidStep::Ask(new_string("android.intent.action.BATTERY_CHANGED"));
    }
    assert(is_kind(replies@[0], kinds@[0]));
    if replies.len() == 1 {
        return AndroidStep::Ask(
            AndroidCall::NewObject {
                class: "android/content/IntentFilter".to_owned(),
                sig: "(Ljava/lang/String;)V".to_owned(),
                args: one_arg(Arg::Object(object_at(replies, 0))),
            },
        );
    }
    assert(is_kind(replies@[1], kinds@[1]));
    if replies.len() == 2 {
        return AndroidStep::Ask(
            method(
                Target::Context,
                "registerReceiver",
                "(Landroid/content/BroadcastReceiver;Landroid/content/IntentFilter;)Landroid/content/Intent;",
                two_args(Arg::Null, Arg::Object(object_at(replies, 1))),
            ),
        );
    }
    assert(is_kind(replies@[2], kinds@[2]));
    let intent: u64 = object_at(replies, 2);
    if replies.len() == 3 {
        return AndroidStep::Ask(new_string("level"));
    }
    assert(is_kind(replies@[3], kinds@[3]));
    if replies.len() == 4 {
        return AndroidStep::Ask(int_extra(intent, object_at(replies, 3)));
    }
    assert(is_kind(replies@[4], kinds@[4]));
    if replies.len() == 5 {
        return AndroidStep::Ask(new_string("scale"));
    }
    assert(is_kind(replies@[5], kinds@[5]));
    if replies.len() == 6 {
        return AndroidStep::Ask(int_extra(intent, object_at(replies, 5)));
    }
    assert(is_kind(replies@[6], kinds@[6]));
    if replies.len() == 7 {
        return AndroidStep::Ask(new_string("plugged"));
    }
    assert(is_kind(replies@[7], kinds@[7]));
    if replies.len() == 8 {
        return AndroidStep::Ask(int_extra(intent, object_at(replies, 7)));
    }
    assert(is_kind(replies@[8], kinds@[8]));
    AndroidStep::Return(
        BatteryReading {
            level: int_at(replies, 4),
            scale: int_at(replies, 6),
            plugged: int_at(replies, 8) > 0,
        },
    )
}

/// A query fails as soon as a call that it needs has failed, and it has its result only when every
/// reply is there.
pub proof fn a_failed_call_fails_the_query<V>(
    replies: Seq<AndroidReply>,
    kinds: Seq<ReplyKind>,
    call: CallView,
    result: V,
    i: int,
)
    requires
        0 <= i < replies.len(),
        i < kinds.len(),
    ensures
        replies[i] is Failed ==> query(replies, kinds, call, result) is Fail,
        query(replies, kinds, call, result) is Return ==> replies.len() >= kinds.len(),
        query(replies, kinds, call, result) is Ask ==> replies.len() < kinds.len(),
{
    if replies[i] is Failed {
        assert(!is_kind(replies[i], kinds[i]));
    }
}

/// The API level is the number that the field of that name holds.
pub proof fn the_api_level_is_the_number_that_was_read(level: i32, result: i32)
    ensures
        query(Seq::empty(), api_level_kinds(), api_level_call(), result) == StepView::<i32>::Ask(
            CallView::StaticField {
                class: "android/os/Build$VERSION"@,
                name: "SDK_INT"@,
                sig: "I"@,
            },
        ),
        ({
            let replies = seq![AndroidReply::Int(level)];
            query(replies, api_level_kinds(), api_level_call(), replies[0]->Int_0)
                == StepView::Return(level)
        }),
{
}

/// A text about the build is the text of the string that the field of the name that was asked for
/// holds.
pub proof fn a_text_about_the_build_is_the_one_that_was_asked_for(
    ty: Seq<char>,
    object: u64,
    text: String,
)
    ensures
        build_string_query(ty, Seq::empty()) == StepView::<Seq<char>>::Ask(
            CallView::StaticField {
                class: "android/os/Build"@,
                name: ty,
                sig: "Ljava/lang/String;"@,
            },
        ),
        build_string_query(ty, seq![AndroidReply::Object(object)]) == StepView::<Seq<char>>::Ask(
            CallView::Text(object),
        ),
        build_string_query(ty, seq![AndroidReply::Object(object), AndroidReply::Text(text)])
            == StepView::Return(text@),
{
}

/// The query for a permission after some replies.
pub open spec fn permission_query(permission: Seq<char>, replies: Seq<AndroidReply>) -> StepView<
    (),
> {
    query(replies, permission_kinds(replies), permission_call(permission, replies), ())
}

/// A permission is checked under its own name. Where the check gives zero the query is over; where
/// it gives anything else the user is asked, for just that permission.
pub proof fn a_permission_is_asked_for_unless_the_check_gives_zero(
    permission: Seq<char>,
    name: u64,
    status: i32,
    class_object: u64,
    array: u64,
)
    ensures
        ({
            let r1 = seq![AndroidReply::Object(name)];
            let r2 = r1.push(AndroidReply::Int(status));
            let r3 = r2.push(AndroidReply::Object(class_object));
            let r4 = r3.push(AndroidReply::Object(array));
            let r5 = r4.push(AndroidReply::Void);
            &&& permission_query(permission, Seq::empty()) == StepView::<()>::Ask(
                CallView::NewString(permission),
            )
            &&& permission_query(permission, r1) == StepView::<()>::Ask(
                CallView::Method {
                    target: Target::Context,
                    name: "checkSelfPermission"@,
                    sig: "(Ljava/lang/String;)I"@,
                    args: seq![Arg::Object(name)],
                },
            )
            &&& status == 0 ==> permission_query(permission, r2) == StepView::Return(())
            &&& status != 0 ==> {
                &&& permission_query(permission, r2) == StepView::<()>::Ask(
                    CallView::FindClass("java/lang/String"@),
                )
                &&& permission_query(permission, r3) == StepView::<()>::Ask(
                    CallView::NewObjectArray { len: 1, class_object, element: name },
                )
                &&& permission_query(permission, r4) == StepView::<()>::Ask(
                    CallView::Method {
                        target: Target::Context,
                        name: "requestPermissions"@,
                        sig: "([Ljava/lang/String;I)V"@,
                        args: seq![Arg::Object(array), Arg::Int(0)],
                    },
                )
                &&& permission_query(permission, r5) == StepView::Return(())
            }
        }),
{
}

/// A service is looked up under its own name, and the result is the object that comes back.
pub proof fn a_service_is_the_object_that_comes_back(
    service_name: Seq<char>,
    name: u64,
    service: u64,
    result: u64,
)
    ensures
        query(
            Seq::empty(),
            system_service_kinds(),
            system_service_call(service_name, Seq::empty()),
            result,
        ) == StepView::<u64>::Ask(CallView::NewString(service_name)),
        ({
            let replies = seq![AndroidReply::Object(name)];
            query(
                replies,
                system_service_kinds(),
                system_service_call(service_name, replies),
                result,
            ) == StepView::<u64>::Ask(
                CallView::Method {
                    target: Target::Context,
                    name: "getSystemService"@,
                    sig: "(Ljava/lang/String;)Ljava/lang/Object;"@,
                    args: seq![Arg::Object(name)],
                },
            )
        }),
        ({
            let replies = seq![AndroidReply::Object(name), AndroidReply::Object(service)];
            query(
                replies,
                system_service_kinds(),
                system_service_call(service_name, replies),
                replies[1]->Object_0,
            ) == StepView::Return(service)
        }),
{
}

/// The query for the wifi lock after some replies.
pub open spec fn wifi_lock_query(enabled: bool, replies: Seq<AndroidReply>) -> StepView<bool> {
    query(
        replies,
        wifi_lock_kinds(),
        wifi_lock_call(enabled, replies),
        replies[7]->Bool_0 == enabled,
    )
}

/// A call of a method of an object.
pub open spec fn asks_method(
    step: StepView<bool>,
    object: u64,
    name: Seq<char>,
    args: Seq<Arg>,
) -> bool {
    &&& step is Ask
    &&& step->Ask_0 is Method
    &&& step->Ask_0->target == Target::Object(object)
    &&& step->Ask_0->Method_name == name
    &&& step->Ask_0->Method_args == args
}

/// The wifi lock is made by the wifi service, in the mode that keeps scans away from API level 29 on
/// and in the other one before; it is not counted; it is taken where it is wanted and released where
/// it is not; and the result is whether it is held just when it is wanted.
pub proof fn the_wifi_lock_is_set_as_it_is_wanted(
    enabled: bool,
    service_name: u64,
    service: u64,
    lock_name: u64,
    api_level: i32,
    lock: u64,
    held: bool,
)
    ensures
        ({
            let r1 = seq![AndroidReply::Object(service_name)];
            let r2 = r1.push(AndroidReply::Object(service));
            let r3 = r2.push(AndroidReply::Object(lock_name));
            let r4 = r3.push(AndroidReply::Int(api_level));
            let r5 = r4.push(AndroidReply::Object(lock));
            let r6 = r5.push(AndroidReply::Void);
            let r7 = r6.push(AndroidReply::Void);
            let r8 = r7.push(AndroidReply::Bool(held));
            &&& wifi_lock_query(enabled, Seq::empty()) == StepView::<bool>::Ask(
                CallView::NewString("wifi"@),
            )
            &&& wifi_lock_query(enabled, r1) is Ask
            &&& wifi_lock_query(enabled, r1)->Ask_0 is Method
            &&& wifi_lock_query(enabled, r1)->Ask_0->Method_name == "getSystemService"@
            &&& wifi_lock_query(enabled, r1)->Ask_0->Method_args == seq![Arg::Object(service_name)]
            &&& wifi_lock_query(enabled, r2) == StepView::<bool>::Ask(
                CallView::NewString("alvr_wifi_lock"@),
            )
            &&& wifi_lock_query(enabled, r3) is Ask
            &&& wifi_lock_query(enabled, r3)->Ask_0 is StaticField
            &&& wifi_lock_query(enabled, r3)->Ask_0->StaticField_name == "SDK_INT"@
            &&& api_level >= 29 ==> asks_method(
                wifi_lock_query(enabled, r4),
                service,
                "createWifiLock"@,
                seq![Arg::Int(4), Arg::Object(lock_name)],
            )
            &&& api_level < 29 ==> asks_method(
                wifi_lock_query(enabled, r4),
                service,
                "createWifiLock"@,
                seq![Arg::Int(3), Arg::Object(lock_name)],
            )
            &&& asks_method(
                wifi_lock_query(enabled, r5),
                lock,
                "setReferenceCounted"@,
                seq![Arg::Bool(false)],
            )
            &&& enabled ==> asks_method(
                wifi_lock_query(enabled, r6),
                lock,
                "acquire"@,
                Seq::empty(),
            )
            &&& !enabled ==> asks_method(
                wifi_lock_query(enabled, r6),
                lock,
                "release"@,
                Seq::empty(),
            )
            &&& asks_method(wifi_lock_query(enabled, r7), lock, "isHeld"@, Seq::empty())
            &&& wifi_lock_query(enabled, r8) == StepView::Return(held <==> enabled)
        }),
{
}

/// The query for the battery after some replies.
pub open spec fn battery_query(replies: Seq<AndroidReply>) -> StepView<BatteryReading> {
    query(replies, battery_kinds(), battery_call(replies), battery_reading(replies))
}

/// Whether a step reads the number under a name, which was made a string before, from the battery's
/// message, and takes a number that is not there as minus one.
pub open spec fn reads_extra(step: StepView<BatteryReading>, message: u64, name: u64) -> bool {
    &&& step is Ask
    &&& step->Ask_0 is Method
    &&& step->Ask_0->target == Target::Object(message)
    &&& step->Ask_0->Method_name == "getIntExtra"@
    &&& step->Ask_0->Method_args.len() == 2
    &&& step->Ask_0->Method_args[0] == Arg::Object(name)
    &&& step->Ask_0->Method_args[1] is Int
    &&& step->Ask_0->Method_args[1]->Int_0 == -1
}

/// The reading of the battery is made of the three numbers that the battery's message holds under
/// the names `level`, `scale` and `plugged`: the first two as they are, and plugged in exactly when
/// the third is one or more.
pub proof fn the_battery_is_read_by_the_names_of_its_numbers(
    action: u64,
    filter: u64,
    message: u64,
    level_name: u64,
    level: i32,
    scale_name: u64,
    scale: i32,
    plugged_name: u64,
    plugged: i32,
)
    ensures
        ({
            let r3 = seq![
                AndroidReply::Object(action),
                AndroidReply::Object(filter),
                AndroidReply::Object(message),
            ];
            let r4 = r3.push(AndroidReply::Object(level_name));
            let r5 = r4.push(AndroidReply::Int(level));
            let r6 = r5.push(AndroidReply::Object(scale_name));
            let r7 = r6.push(AndroidReply::Int(scale));
            let r8 = r7.push(AndroidReply::Object(plugged_name));
            let r9 = r8.push(AndroidReply::Int(plugged));
            let reading = battery_query(r9)->Return_0;
            &&& battery_query(r3) == StepView::<BatteryReading>::Ask(CallView::NewString("level"@))
            &&& reads_extra(battery_query(r4), message, level_name)
            &&& battery_query(r5) == StepView::<BatteryReading>::Ask(CallView::NewString("scale"@))
            &&& reads_extra(battery_query(r6), message, scale_name)
            &&& battery_query(r7) == StepView::<BatteryReading>::Ask(
                CallView::NewString("plugged"@),
            )
            &&& reads_extra(battery_query(r8), message, plugged_name)
            &&& battery_query(r9) is Return
            &&& reading.level == level
            &&& reading.scale == scale
            &&& reading.plugged <==> plugged >= 1
        }),
{
}

/// The battery's message is the one that the system keeps under the name of the change of the
/// battery, and it is fetched through a filter for that name, without anybody to receive it.
pub proof fn the_battery_s_message_is_fetched_by_its_name(action: u64, filter: u64)
    ensures
        battery_query(Seq::empty()) == StepView::<BatteryReading>::Ask(
            CallView::NewString("android.intent.action.BATTERY_CHANGED"@),
        ),
        battery_query(seq![AndroidReply::Object(action)]) == StepView::<BatteryReading>::Ask(
            CallView::NewObject {
                class: "android/content/IntentFilter"@,
                sig: "(Ljava/lang/String;)V"@,
                args: seq![Arg::Object(action)],
            },
        ),
        ({
            let step = battery_query(seq![AndroidReply::Object(action), AndroidReply::Object(filter)]);
            &&& step is Ask
            &&& step->Ask_0 is Method
            &&& step->Ask_0->target == Target::Context
            &&& step->Ask_0->Method_name == "registerReceiver"@
            &&& step->Ask_0->Method_args == seq![Arg::Null, Arg::Object(filter)]
        }),
{
}

} // verus!
