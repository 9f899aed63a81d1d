//! Asset interfaces: their descriptions and their client.
use relay::asset_client::{
    append_action_query, binding_endpoint, binding_ns, build_asset_endpoint, delete_body,
    extract_result_field, needed_bindings, parse_binding_id_from_ns, plan_deletions,
    prepare_delete_jobs, read_reply, AssetItem, BindingCredRow, BindingEndpoint, DeleteRun,
    DeleteStep, Deletion, LOG_SOURCE, PLUGIN_NAME, UPSTREAM_DELETE_GAP_MS,
};
use relay::asset_profile::{
    build_list_result, build_upstream_request, default_method, path_get, path_set,
    transform_response, ActionSpec, AssetApiProfile, ListSpec, Method, ResponseSpec,
};
use relay::json::{Json, JsonMap};

fn j(s: &str) -> Json {
    Json::parse(s).unwrap()
}

fn members(s: &str) -> JsonMap {
    match j(s) {
        Json::Obj(m) => m,
        _ => panic!("no object"),
    }
}

fn response() -> ResponseSpec {
    ResponseSpec {
        unwrap_body: false,
        ok_path: String::new(),
        ok_value: String::new(),
        id_path: String::new(),
        list: None,
        raw_result: false,
    }
}

fn action(method: &str, path: &str) -> ActionSpec {
    ActionSpec {
        method: method.to_string(),
        path: path.to_string(),
        inject: JsonMap::new(),
        defaults: JsonMap::new(),
        rename: vec![],
        keep: vec![],
        drop: vec![],
        send_body: None,
        path_params: vec![],
        response: response(),
    }
}

fn pair(a: &str, b: &str) -> (String, String) {
    (a.to_string(), b.to_string())
}

#[test]
fn profiles_need_a_text() {
    assert_eq!(AssetApiProfile::source("  \n"), None);
    assert_eq!(AssetApiProfile::source(" {} "), Some("{}"));
    assert_eq!(default_method(), "POST");
    let p = AssetApiProfile { actions: vec![], unsupported: vec!["A".to_string(), "B".to_string()] };
    assert!(p.is_unsupported("B"));
    assert!(!p.is_unsupported("b"));
}

#[test]
fn paths_read_what_was_written() {
    let mut v = j(r#"{"a":{"b":1},"c":5}"#);
    assert_eq!(path_get(&v, "a.b").unwrap().to_text(), "1");
    assert_eq!(path_get(&v, ".a..b.").unwrap().to_text(), "1");
    assert_eq!(path_get(&v, "").unwrap().to_text(), r#"{"a":{"b":1},"c":5}"#);
    assert!(path_get(&v, "a.x").is_none());
    path_set(&mut v, "a.x.y", j("7"));
    assert_eq!(path_get(&v, "a.x.y").unwrap().to_text(), "7");
    path_set(&mut v, "c.d", j("8"));
    assert_eq!(v.to_text(), r#"{"a":{"b":1,"x":{"y":7}},"c":{"d":8}}"#);
    path_set(&mut v, "", j("9"));
    assert_eq!(v.to_text(), r#"{"a":{"b":1,"x":{"y":7}},"c":{"d":8}}"#);
    let mut n = j("3");
    path_set(&mut n, "a", j("1"));
    assert_eq!(n.to_text(), "3");
}

#[test]
fn requests_are_renamed_filled_and_filtered() {
    let mut spec = action("put", "/g/{groupID}/{x}");
    spec.path_params = vec![pair("groupID", "Id | GroupId"), pair("x", "none")];
    spec.rename = vec![pair("Name", "title")];
    spec.inject = members(r#"{"fixed":1,"over":2}"#);
    spec.defaults = members(r#"{"size":10,"empty":"e","over":9}"#);
    spec.drop = vec!["secret".to_string()];
    let incoming = j(r#"{"GroupId":"g1","Id":"","Name":"n","over":0,"empty":null,"secret":1}"#);
    let (m, path, body) = build_upstream_request(&spec, &incoming);
    assert_eq!(m, Method::Put);
    assert_eq!(path, "/g/g1/");
    assert_eq!(
        body.unwrap().to_text(),
        r#"{"GroupId":"g1","Id":"","empty":"e","fixed":1,"over":2,"size":10,"title":"n"}"#
    );
    spec.keep = vec!["title".to_string(), "secret".to_string(), "absent".to_string()];
    let (_, _, body) = build_upstream_request(&spec, &incoming);
    assert_eq!(body.unwrap().to_text(), r#"{"title":"n"}"#);
}

#[test]
fn the_method_decides_on_a_body_unless_it_is_said() {
    for (name, method, sent) in [
        ("Get", Method::Get, false),
        ("DELETE", Method::Delete, false),
        ("patch", Method::Patch, true),
        ("POST", Method::Post, true),
        ("other", Method::Post, true),
    ] {
        let mut spec = action(name, "/p");
        let (m, _, body) = build_upstream_request(&spec, &j("[]"));
        assert_eq!(m, method);
        assert_eq!(body.is_some(), sent);
        spec.send_body = Some(!sent);
        assert_eq!(build_upstream_request(&spec, &j("[]")).2.is_some(), !sent);
    }
}

#[test]
fn answers_go_into_the_envelope() {
    let mut spec = action("POST", "/p");
    let head = r#"{"ResponseMetadata":{"Action":"A","Region":"cn-north-1","RequestId":"r1","Service":"ark","Version":"v"},"Result":"#;
    let up = j(r#"{"requestId":"r1","code":"0","body":{"data":{"id":"i7"}}}"#);
    let r = transform_response(&spec, "A", "v", &up).unwrap();
    assert_eq!(r.to_text(), format!("{}{}}}", head, up.to_text()));
    spec.response.unwrap_body = true;
    spec.response.id_path = "data.id".to_string();
    spec.response.ok_path = "code".to_string();
    spec.response.ok_value = "0".to_string();
    let r = transform_response(&spec, "A", "v", &up).unwrap();
    assert_eq!(r.to_text(), format!("{}{}", head, r#"{"Id":"i7"}}"#));
    spec.response.id_path = "$".to_string();
    let r = transform_response(&spec, "A", "v", &j(r#"{"code":"0","body":"new"}"#)).unwrap();
    assert_eq!(r.get("Result").unwrap().to_text(), r#"{"Id":"new"}"#);
    let e = transform_response(&spec, "A", "v", &j(r#"{"code":"7","error":"bad"}"#));
    assert_eq!(e.unwrap_err(), "上游业务错误(code=7): bad");
    let mut spec = action("POST", "/p");
    spec.response.ok_path = "state".to_string();
    let e = transform_response(&spec, "GetAsset", "2024-01-01", &j(r#"{"state":"FAIL","message":"m"}"#));
    assert_eq!(e.unwrap_err(), "上游业务错误(state=FAIL): m");
    assert!(transform_response(&spec, "GetAsset", "2024-01-01", &j("{}")).is_ok());
}

#[test]
fn lists_name_their_items() {
    let mut list = ListSpec {
        items_path: "data.list".to_string(),
        item_id_field: "uid".to_string(),
        total_path: "data.total".to_string(),
        target_key: String::new(),
    };
    let payload = j(r#"{"data":{"list":[{"uid":"a","x":1},{"Id":"z"},5],"total":9}}"#);
    assert_eq!(
        build_list_result(&list, &payload).to_text(),
        r#"{"Items":[{"Id":"a","uid":"a","x":1},{"Id":"z"},5],"TotalCount":9}"#
    );
    list.target_key = "Assets".to_string();
    list.total_path = "none".to_string();
    assert_eq!(
        build_list_result(&list, &j(r#"{"data":{"list":[1]}}"#)).to_text(),
        r#"{"Assets":[1],"TotalCount":1}"#
    );
    assert_eq!(build_list_result(&list, &j("{}")).to_text(), r#"{"Assets":[],"TotalCount":0}"#);
}

#[test]
fn namespaces_name_their_binding() {
    assert_eq!(binding_ns(42), "uar:42");
    for id in [1, 9, 10, 4_000_000_000, i64::MAX] {
        assert_eq!(parse_binding_id_from_ns(&binding_ns(id)), Some(id));
    }
    for id in [0, -1, i64::MIN] {
        assert_eq!(parse_binding_id_from_ns(&binding_ns(id)), None);
    }
    assert_eq!(parse_binding_id_from_ns("uar:+7"), Some(7));
    for ns in ["", "uar:", "uar:x", "uar:99999999999999999999", "x:1", "UAR:1"] {
        assert_eq!(parse_binding_id_from_ns(ns), None);
    }
}

#[test]
fn endpoints_carry_action_and_version() {
    assert_eq!(build_asset_endpoint("http://h//", "  ", "joined"), "http://h");
    assert_eq!(build_asset_endpoint("http://h/", "/a", "http://h/a"), "http://h/a");
    assert_eq!(append_action_query("http://h", "GetAsset"), "http://h?Action=GetAsset&Version=2024-01-01");
    assert_eq!(append_action_query("http://h?x=1", "A"), "http://h?x=1&Action=A&Version=2024-01-01");
    assert_eq!((LOG_SOURCE, PLUGIN_NAME), ("upstream_relay_convert", "upstream_asset_relay"));
}

#[test]
fn fields_stand_in_the_result_or_at_the_top() {
    let v = j(r#"{"Result":{"Id":"in","n":1,"a":["x","y"],"s/t":"p"},"Id":"top","n":"t"}"#);
    assert_eq!(extract_result_field(&v, "Id").as_deref(), Some("in"));
    assert_eq!(extract_result_field(&v, "n").as_deref(), Some("t"));
    assert_eq!(extract_result_field(&v, "a/1").as_deref(), Some("y"));
    assert_eq!(extract_result_field(&v, "a/01"), None);
    assert_eq!(extract_result_field(&v, "s~1t").as_deref(), Some("p"));
    assert_eq!(extract_result_field(&v, "x"), None);
    assert_eq!(extract_result_field(&j(r#"{"Result":3,"Id":"t"}"#), "Id").as_deref(), Some("t"));
}

#[test]
fn replies_are_json_under_a_good_status() {
    assert_eq!(read_reply(200, r#"{"a":1}"#).unwrap().to_text(), r#"{"a":1}"#);
    assert_eq!(read_reply(299, "1").unwrap().to_text(), "1");
    assert_eq!(read_reply(404, "gone").unwrap_err(), "上游素材接口错误: 404 - gone");
    assert_eq!(read_reply(300, "1").unwrap_err(), "上游素材接口错误: 300 - 1");
    assert_eq!(
        read_reply(200, "x").unwrap_err(),
        "解析上游素材响应失败: expected value at line 1 column 1 - x"
    );
}

#[test]
fn bindings_need_an_address_and_a_key() {
    let mut row = BindingCredRow {
        id: 3,
        asset_base_path: String::new(),
        base_url: Some("http://h/".to_string()),
        api_key: Some("k".to_string()),
    };
    let e = binding_endpoint(&row, "joined").unwrap();
    assert_eq!((e.id, e.endpoint.as_str(), e.api_key.as_str()), (3, "http://h", "k"));
    row.asset_base_path = "/a".to_string();
    assert_eq!(binding_endpoint(&row, "joined").unwrap().endpoint, "joined");
    row.api_key = Some(" ".to_string());
    assert!(binding_endpoint(&row, "joined").is_none());
    row.api_key = Some("k".to_string());
    row.base_url = None;
    assert!(binding_endpoint(&row, "joined").is_none());
}

fn item(id: &str, ns: &str) -> AssetItem {
    AssetItem { asset_id: id.to_string(), plugin_ns: ns.to_string() }
}

#[test]
fn deletions_run_one_by_one_until_the_upstream_wants_no_more() {
    let items = vec![
        item("a", "uar:1"),
        item("b", "uar:2"),
        item("a", "uar:1"),
        item("", "uar:4"),
        item("c", "uar:1"),
        item("d", "other"),
        item("e", "uar:3"),
    ];
    assert_eq!(needed_bindings(&items), vec![1, 2, 3]);
    let known = vec![
        BindingEndpoint { id: 1, endpoint: "e1".to_string(), api_key: "k1".to_string() },
        BindingEndpoint { id: 3, endpoint: "e3".to_string(), api_key: "k3".to_string() },
    ];
    let jobs = prepare_delete_jobs(&items, &known);
    let shown: Vec<String> = jobs
        .iter()
        .map(|x| format!("{} {} {} {} {:?}", x.binding_id, x.plugin_ns, x.endpoint, x.api_key, x.asset_ids))
        .collect();
    assert_eq!(shown, vec![r#"1 uar:1 e1 k1 ["a", "c"]"#, r#"3 uar:3 e3 k3 ["e"]"#]);
    let plan = plan_deletions(&jobs);
    let mut run = DeleteRun::start();
    let mut seen = Vec::new();
    loop {
        match run.next_step(&plan) {
            DeleteStep::Finished(limited) => {
                assert!(!limited);
                break;
            }
            DeleteStep::Delete(wait, Deletion { job, asset }) => {
                seen.push((wait, jobs[job].asset_ids[asset].clone()));
                run.record(false);
            }
        }
    }
    let gap = UPSTREAM_DELETE_GAP_MS;
    assert_eq!(seen, vec![(0, "a".to_string()), (gap, "c".to_string()), (gap, "e".to_string())]);
    let mut run = DeleteRun::start();
    run.record(true);
    assert!(matches!(run.next_step(&plan), DeleteStep::Finished(true)));
    assert_eq!(delete_body("a").to_text(), r#"{"Id":"a"}"#);
}
