use latency_link::android::local_ips::{local_ip, LocalIps, LocalIpsEvent, LocalIpsStep};
use latency_link::android::{
    build_string, device_name, get_api_level, get_battery_status, get_system_service,
    manufacturer_name, model_name, product_name, set_wifi_lock, try_get_permission, AndroidCall,
    AndroidReply, AndroidStep, Arg, BatteryReading, Target, MICROPHONE_PERMISSION,
};
use latency_link::packets::IpAddress;

fn object(n: u64) -> AndroidReply {
    AndroidReply::Object(n)
}

fn new_string(s: &str) -> AndroidCall {
    AndroidCall::NewString(s.to_string())
}

fn method(target: Target, name: &str, sig: &str, args: Vec<Arg>) -> AndroidCall {
    AndroidCall::Method { target, name: name.to_string(), sig: sig.to_string(), args }
}

fn static_field(class: &str, name: &str, sig: &str) -> AndroidCall {
    AndroidCall::StaticField {
        class: class.to_string(),
        name: name.to_string(),
        sig: sig.to_string(),
    }
}

/// Runs a query against prepared calls and replies.
fn run<T: std::fmt::Debug + PartialEq>(
    query: impl Fn(&Vec<AndroidReply>) -> AndroidStep<T>,
    script: Vec<(AndroidCall, AndroidReply)>,
) -> AndroidStep<T> {
    let mut replies = Vec::new();
    for (call, reply) in script {
        assert_eq!(query(&replies), AndroidStep::Ask(call));
        replies.push(reply);
    }
    query(&replies)
}

#[test]
fn the_api_level_is_a_field_of_the_build() {
    let call = || static_field("android/os/Build$VERSION", "SDK_INT", "I");
    assert_eq!(
        run(get_api_level, vec![(call(), AndroidReply::Int(32))]),
        AndroidStep::Return(32)
    );
    assert_eq!(run(get_api_level, vec![(call(), AndroidReply::Failed)]), AndroidStep::Fail);
}

#[test]
fn names_are_fields_of_the_build() {
    let expect = |query: fn(&Vec<AndroidReply>) -> AndroidStep<String>, field: &str| {
        let script = vec![
            (static_field("android/os/Build", field, "Ljava/lang/String;"), object(5)),
            (AndroidCall::Text(5), AndroidReply::Text("eureka".to_string())),
        ];
        assert_eq!(run(query, script), AndroidStep::Return("eureka".to_string()));
    };
    expect(device_name, "DEVICE");
    expect(model_name, "MODEL");
    expect(manufacturer_name, "MANUFACTURER");
    expect(product_name, "PRODUCT");
    expect(|r| build_string("BOARD", r), "BOARD");
}

#[test]
fn a_name_that_cannot_be_read_fails_the_query() {
    assert_eq!(device_name(&vec![AndroidReply::Failed]), AndroidStep::Fail);
    assert_eq!(device_name(&vec![AndroidReply::Int(1)]), AndroidStep::Fail);
    assert_eq!(device_name(&vec![object(1), AndroidReply::Failed]), AndroidStep::Fail);
}

fn permission_check() -> (AndroidCall, AndroidCall) {
    (
        new_string("android.permission.RECORD_AUDIO"),
        method(
            Target::Context,
            "checkSelfPermission",
            "(Ljava/lang/String;)I",
            vec![Arg::Object(1)],
        ),
    )
}

#[test]
fn a_permission_that_is_there_is_not_asked_for() {
    let (name, check) = permission_check();
    let script = vec![(name, object(1)), (check, AndroidReply::Int(0))];
    assert_eq!(
        run(|r| try_get_permission(MICROPHONE_PERMISSION, r), script),
        AndroidStep::Return(())
    );
}

#[test]
fn a_permission_that_is_not_there_is_asked_for() {
    let (name, check) = permission_check();
    let script = vec![
        (name, object(1)),
        (check, AndroidReply::Int(-1)),
        (AndroidCall::FindClass("java/lang/String".to_string()), object(2)),
        (AndroidCall::NewObjectArray { len: 1, class_object: 2, element: 1 }, object(3)),
        (
            method(
                Target::Context,
                "requestPermissions",
                "([Ljava/lang/String;I)V",
                vec![Arg::Object(3), Arg::Int(0)],
            ),
            AndroidReply::Void,
        ),
    ];
    assert_eq!(
        run(|r| try_get_permission(MICROPHONE_PERMISSION, r), script),
        AndroidStep::Return(())
    );
}

#[test]
fn a_service_is_looked_up_by_name() {
    let script = vec![
        (new_string("wifi"), object(1)),
        (
            method(
                Target::Context,
                "getSystemService",
                "(Ljava/lang/String;)Ljava/lang/Object;",
                vec![Arg::Object(1)],
            ),
            object(2),
        ),
    ];
    assert_eq!(run(|r| get_system_service("wifi", r), script), AndroidStep::Return(2));
}

fn wifi_script(
    api_level: i32,
    mode: i32,
    verb: &str,
    held: bool,
) -> Vec<(AndroidCall, AndroidReply)> {
    vec![
        (new_string("wifi"), object(1)),
        (
            method(
                Target::Context,
                "getSystemService",
                "(Ljava/lang/String;)Ljava/lang/Object;",
                vec![Arg::Object(1)],
            ),
            object(2),
        ),
        (new_string("alvr_wifi_lock"), object(3)),
        (static_field("android/os/Build$VERSION", "SDK_INT", "I"), AndroidReply::Int(api_level)),
        (
            method(
                Target::Object(2),
                "createWifiLock",
                "(ILjava/lang/String;)Landroid/net/wifi/WifiManager$WifiLock;",
                vec![Arg::Int(mode), Arg::Object(3)],
            ),
            object(4),
        ),
        (
            method(Target::Object(4), "setReferenceCounted", "(Z)V", vec![Arg::Bool(false)]),
            AndroidReply::Void,
        ),
        (method(Target::Object(4), verb, "()V", vec![]), AndroidReply::Void),
        (method(Target::Object(4), "isHeld", "()Z", vec![]), AndroidReply::Bool(held)),
    ]
}

#[test]
fn the_wifi_lock_is_taken_and_released() {
    let take = |script| run(|r| set_wifi_lock(true, r), script);
    let release = |script| run(|r| set_wifi_lock(false, r), script);
    assert_eq!(take(wifi_script(29, 4, "acquire", true)), AndroidStep::Return(true));
    assert_eq!(take(wifi_script(28, 3, "acquire", true)), AndroidStep::Return(true));
    assert_eq!(take(wifi_script(33, 4, "acquire", false)), AndroidStep::Return(false));
    assert_eq!(release(wifi_script(33, 4, "release", false)), AndroidStep::Return(true));
    assert_eq!(release(wifi_script(33, 4, "release", true)), AndroidStep::Return(false));
}

#[test]
fn a_failing_call_fails_the_wifi_lock() {
    for broken in 0..8 {
        let mut replies: Vec<AndroidReply> =
            wifi_script(29, 4, "acquire", true).into_iter().map(|(_, r)| r).collect();
        replies.truncate(broken);
        replies.push(AndroidReply::Failed);
        assert_eq!(set_wifi_lock(true, &replies), AndroidStep::Fail);
    }
}

fn battery_script(level: i32, scale: i32, plugged: i32) -> Vec<(AndroidCall, AndroidReply)> {
    let extra = |name: u64| {
        method(
            Target::Object(3),
            "getIntExtra",
            "(Ljava/lang/String;I)I",
            vec![Arg::Object(name), Arg::Int(-1)],
        )
    };
    vec![
        (new_string("android.intent.action.BATTERY_CHANGED"), object(1)),
        (
            AndroidCall::NewObject {
                class: "android/content/IntentFilter".to_string(),
                sig: "(Ljava/lang/String;)V".to_string(),
                args: vec![Arg::Object(1)],
            },
            object(2),
        ),
        (
            method(
                Target::Context,
                "registerReceiver",
                "(Landroid/content/BroadcastReceiver;Landroid/content/IntentFilter;)Landroid/content/Intent;",
                vec![Arg::Null, Arg::Object(2)],
            ),
            object(3),
        ),
        (new_string("level"), object(4)),
        (extra(4), AndroidReply::Int(level)),
        (new_string("scale"), object(5)),
        (extra(5), AndroidReply::Int(scale)),
        (new_string("plugged"), object(6)),
        (extra(6), AndroidReply::Int(plugged)),
    ]
}

#[test]
fn the_battery_is_asked_for_three_numbers() {
    assert_eq!(
        run(get_battery_status, battery_script(80, 100, 2)),
        AndroidStep::Return(BatteryReading { level: 80, scale: 100, plugged: true })
    );
    for plugged in [0, -1] {
        assert_eq!(
            run(get_battery_status, battery_script(-1, -1, plugged)),
            AndroidStep::Return(BatteryReading { level: -1, scale: -1, plugged: false })
        );
    }
}

fn plain(object: u64, name: &str, sig: &str) -> LocalIpsStep {
    LocalIpsStep::Ask(method(Target::Object(object), name, sig, vec![]))
}

fn reply(r: AndroidReply) -> LocalIpsEvent {
    LocalIpsEvent::Reply(r)
}

#[test]
fn addresses_of_active_interfaces_are_found() {
    let more = |n| plain(n, "hasMoreElements", "()Z");
    let next = |n| plain(n, "nextElement", "()Ljava/lang/Object;");
    let yes = || reply(AndroidReply::Bool(true));
    let no = || reply(AndroidReply::Bool(false));
    let v4 = IpAddress::V4([10, 0, 0, 7]);
    let mut e = LocalIps::new();
    assert_eq!(
        e.local_ips(LocalIpsEvent::Begin),
        LocalIpsStep::Ask(AndroidCall::FindClass("java/net/NetworkInterface".to_string()))
    );
    assert_eq!(
        e.local_ips(reply(object(1))),
        LocalIpsStep::Ask(AndroidCall::StaticMethod {
            class_object: 1,
            name: "getNetworkInterfaces".to_string(),
            sig: "()Ljava/util/Enumeration;".to_string(),
        })
    );
    assert_eq!(e.local_ips(reply(object(2))), more(2));
    // A loopback.
    assert_eq!(e.local_ips(yes()), next(2));
    assert_eq!(e.local_ips(reply(object(3))), plain(3, "isLoopback", "()Z"));
    assert_eq!(e.local_ips(yes()), more(2));
    // An interface that cannot be had, one that does not say, and one that is down.
    assert_eq!(e.local_ips(yes()), next(2));
    assert_eq!(e.local_ips(reply(AndroidReply::Failed)), more(2));
    e.local_ips(yes());
    e.local_ips(reply(object(4)));
    assert_eq!(e.local_ips(reply(AndroidReply::Failed)), more(2));
    e.local_ips(yes());
    e.local_ips(reply(object(5)));
    assert_eq!(e.local_ips(no()), plain(5, "isUp", "()Z"));
    assert_eq!(e.local_ips(no()), more(2));
    // An interface that is up, with an IPv6 and an IPv4 address, and one that is not readable.
    e.local_ips(yes());
    e.local_ips(reply(object(6)));
    e.local_ips(no());
    assert_eq!(
        e.local_ips(yes()),
        plain(6, "getInetAddresses", "()Ljava/util/Enumeration;")
    );
    assert_eq!(e.local_ips(reply(object(7))), more(7));
    for parsed in [Some(IpAddress::V6([1; 16])), Some(v4), None] {
        assert_eq!(e.local_ips(yes()), next(7));
        assert_eq!(
            e.local_ips(reply(object(8))),
            plain(8, "getHostAddress", "()Ljava/lang/String;")
        );
        assert_eq!(e.local_ips(reply(object(9))), LocalIpsStep::Ask(AndroidCall::Text(9)));
        assert_eq!(
            e.local_ips(reply(AndroidReply::Text("text".to_string()))),
            LocalIpsStep::ParseIp("text".to_string())
        );
        assert_eq!(e.local_ips(LocalIpsEvent::Parsed(parsed)), more(7));
    }
    assert_eq!(e.local_ips(no()), more(2));
    assert_eq!(e.local_ips(no()), LocalIpsStep::Return(vec![v4]));
}

#[test]
fn there_are_no_addresses_without_the_list_of_interfaces() {
    let mut e = LocalIps::new();
    e.local_ips(LocalIpsEvent::Begin);
    assert_eq!(e.local_ips(reply(AndroidReply::Failed)), LocalIpsStep::Return(vec![]));
    let mut e = LocalIps::new();
    e.local_ips(LocalIpsEvent::Begin);
    e.local_ips(reply(object(1)));
    assert_eq!(e.local_ips(reply(AndroidReply::Failed)), LocalIpsStep::Return(vec![]));
}

#[test]
fn the_first_address_is_the_device_s_own() {
    let a = IpAddress::V4([10, 0, 0, 7]);
    let b = IpAddress::V4([10, 0, 0, 8]);
    assert_eq!(local_ip(&vec![a, b]), a);
    assert_eq!(local_ip(&vec![]), IpAddress::V4([0, 0, 0, 0]));
}

#[test]
fn a_listing_that_breaks_off_keeps_what_was_found() {
    let v4 = IpAddress::V4([192, 168, 1, 7]);
    let yes = || reply(AndroidReply::Bool(true));
    let mut e = LocalIps::new();
    e.local_ips(LocalIpsEvent::Begin);
    e.local_ips(reply(object(1)));
    e.local_ips(reply(object(2)));
    e.local_ips(yes());
    e.local_ips(reply(object(3)));
    e.local_ips(reply(AndroidReply::Bool(false)));
    e.local_ips(yes());
    e.local_ips(reply(object(4)));
    e.local_ips(yes());
    e.local_ips(reply(object(5)));
    e.local_ips(reply(object(6)));
    e.local_ips(reply(AndroidReply::Text("192.168.1.7".to_string())));
    assert_eq!(
        e.local_ips(LocalIpsEvent::Parsed(Some(v4))),
        plain(4, "hasMoreElements", "()Z")
    );
    assert_eq!(
        e.local_ips(reply(AndroidReply::Failed)),
        plain(2, "hasMoreElements", "()Z")
    );
    assert_eq!(e.local_ips(reply(AndroidReply::Failed)), LocalIpsStep::Return(vec![v4]));
}
