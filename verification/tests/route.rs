use loadavg::route::{route, routes, Handler, Method, Route};

const ALL_METHODS: [Method; 9] = [
    Method::Get,
    Method::Put,
    Method::Post,
    Method::Delete,
    Method::Options,
    Method::Head,
    Method::Trace,
    Method::Connect,
    Method::Patch,
];

#[test]
fn table_holds_the_one_route() {
    let table = routes();
    assert_eq!(table.len(), 1);
    assert_eq!(table[0].method, Method::Get);
    assert_eq!(table[0].path, "/loadavg");
    assert_eq!(table[0].handler, Handler::LoadAvg);
}

#[test]
fn get_loadavg_is_routed() {
    assert_eq!(route(&routes(), Method::Get, "/loadavg"), Some(Handler::LoadAvg));
}

#[test]
fn other_paths_are_not_routed() {
    let table = routes();
    let paths = [
        "",
        "/",
        "/loadavg/",
        "/loadavg2",
        "/loadav",
        "loadavg",
        "/LOADAVG",
        "/Loadavg",
        "//loadavg",
        "/loadavg?x=1",
        "/load/avg",
        "/loadavg ",
        "/lo\u{e4}davg",
        "/index.html",
    ];
    for path in paths {
        assert_eq!(route(&table, Method::Get, path), None, "{path}");
    }
}

#[test]
fn other_methods_are_not_routed() {
    let table = routes();
    for method in ALL_METHODS {
        let expected = if method == Method::Get { Some(Handler::LoadAvg) } else { None };
        assert_eq!(route(&table, method, "/loadavg"), expected, "{method:?}");
    }
}

#[test]
fn empty_table_routes_nothing() {
    let table: Vec<Route> = Vec::new();
    for method in ALL_METHODS {
        assert_eq!(route(&table, method, "/loadavg"), None);
    }
}

#[test]
fn first_accepting_route_wins() {
    let table = vec![
        Route { method: Method::Post, path: "/loadavg", handler: Handler::LoadAvg },
        Route { method: Method::Get, path: "/other", handler: Handler::LoadAvg },
        Route { method: Method::Get, path: "/loadavg", handler: Handler::LoadAvg },
    ];
    assert_eq!(route(&table, Method::Get, "/loadavg"), Some(Handler::LoadAvg));
    assert_eq!(route(&table, Method::Get, "/other"), Some(Handler::LoadAvg));
    assert_eq!(route(&table, Method::Post, "/loadavg"), Some(Handler::LoadAvg));
    assert_eq!(route(&table, Method::Post, "/other"), None);
    assert_eq!(route(&table, Method::Put, "/loadavg"), None);
}
