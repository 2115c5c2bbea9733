use taurifest::assets::{component_file_names, AssetLoader, ComponentAsset};
use taurifest::manifest::{find_route, ComponentConfig, EmitConfig, Route, SocketConfig, Step};
use taurifest::sockets::SocketManager;
use taurifest::Builder;

fn plain_route(marker: &str) -> Route {
    Route {
        route_type: "action".to_string(),
        reads: vec![marker.to_string()],
        writes: Vec::new(),
        update: None,
        steps: Vec::<Step>::new(),
        internal: None,
    }
}

#[test]
fn find_route_returns_first_match() {
    let routes = vec![
        ("a".to_string(), plain_route("first")),
        ("b".to_string(), plain_route("second")),
        ("a".to_string(), plain_route("shadowed")),
    ];
    let found = find_route(&routes, &"a".to_string()).unwrap();
    assert_eq!(found.reads, vec!["first".to_string()]);
    assert!(find_route(&routes, &"c".to_string()).is_none());
}

#[test]
fn get_component_finds_loaded_asset() {
    let loader = AssetLoader::from_components(vec![
        (
            "header".to_string(),
            ComponentAsset {
                template: "<h1></h1>".to_string(),
                style: None,
            },
        ),
        (
            "card".to_string(),
            ComponentAsset {
                template: "<div></div>".to_string(),
                style: Some("div {}".to_string()),
            },
        ),
    ]);
    let card = loader.get_component("card").unwrap();
    assert_eq!(card.template, "<div></div>".to_string());
    assert_eq!(card.style, Some("div {}".to_string()));
    assert!(loader.get_component("missing").is_none());
}

#[test]
fn component_file_names_follow_config_shape() {
    let simple = ComponentConfig::Simple("list.html".to_string());
    assert_eq!(
        component_file_names(&simple),
        ("list.html".to_string(), None)
    );
    let detailed = ComponentConfig::Detailed {
        template: "card.html".to_string(),
        style: Some("card.css".to_string()),
    };
    assert_eq!(
        component_file_names(&detailed),
        ("card.html".to_string(), Some("card.css".to_string()))
    );
}

#[test]
fn emissions_fire_only_for_watched_connector() {
    let sockets = vec![
        (
            "chan1".to_string(),
            SocketConfig {
                watch: "todos".to_string(),
                emit: EmitConfig {
                    event: "todos-changed".to_string(),
                    payload: "todos".to_string(),
                },
            },
        ),
        (
            "chan2".to_string(),
            SocketConfig {
                watch: "users".to_string(),
                emit: EmitConfig {
                    event: "users-changed".to_string(),
                    payload: "users".to_string(),
                },
            },
        ),
    ];
    let manager = SocketManager::new();
    let due = manager.emissions_for_write(&sockets, &"todos".to_string());
    assert_eq!(due.len(), 1);
    assert_eq!(due[0].event, "todos-changed".to_string());
    assert_eq!(due[0].payload, "todos".to_string());
    let none_due = manager.emissions_for_write(&sockets, &"other".to_string());
    assert_eq!(none_due.len(), 0);
}

#[test]
fn builder_remembers_app_path() {
    let b = Builder::new("ui".to_string());
    assert_eq!(b.app_path, "ui".to_string());
}
