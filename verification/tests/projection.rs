use ec2_picker::catalog::Catalog;
use ec2_picker::catalog::Instance;
use ec2_picker::catalog::InstanceGroup;
use ec2_picker::catalog::Tag;
use ec2_picker::controller::App;
use ec2_picker::controller::InputEvent;
use ec2_picker::launcher::session_command;
use ec2_picker::view::project;
use ec2_picker::view::DetailPanel;

fn instance(id: &str, size: &str, state: &str, tags: &[(&str, &str)]) -> Instance {
    Instance {
        instance_id: id.to_string(),
        instance_type: size.to_string(),
        state_name: state.to_string(),
        tags: tags
            .iter()
            .map(|(k, v)| Tag { key: k.to_string(), value: v.to_string() })
            .collect(),
    }
}

fn catalog_of(ids: &[&str]) -> Catalog {
    let groups: Vec<InstanceGroup> = ids
        .iter()
        .map(|id| InstanceGroup {
            instances: vec![instance(id, "t3.large", "stopped", &[("Name", id)])],
        })
        .collect();
    Catalog::load(groups).unwrap()
}

#[test]
fn rows_follow_entries_and_mark_the_index() {
    let catalog = catalog_of(&["i-1", "i-2", "i-3"]);
    let vm = project(&catalog, 1);
    assert_eq!(vm.rows.len(), 3);
    let labels: Vec<&str> = vm.rows.iter().map(|r| r.label.as_str()).collect();
    assert_eq!(labels, vec!["i-1", "i-2", "i-3"]);
    let actives: Vec<bool> = vm.rows.iter().map(|r| r.active).collect();
    assert_eq!(actives, vec![false, true, false]);
}

#[test]
fn detail_shows_first_instance_of_selected_entry() {
    let groups = vec![
        InstanceGroup {
            instances: vec![instance("i-1", "t2.micro", "running", &[("Name", "alpha")])],
        },
        InstanceGroup {
            instances: vec![instance(
                "i-2",
                "m5.xlarge",
                "stopped",
                &[("Name", "beta"), ("Team", "infra")],
            )],
        },
    ];
    let catalog = Catalog::load(groups).unwrap();
    let vm = project(&catalog, 1);
    match vm.detail {
        DetailPanel::Instance { instance_type, state_name, tags } => {
            assert_eq!(instance_type, "m5.xlarge");
            assert_eq!(state_name, "stopped");
            let pairs: Vec<(&str, &str)> =
                tags.iter().map(|t| (t.key.as_str(), t.value.as_str())).collect();
            assert_eq!(pairs, vec![("Name", "beta"), ("Team", "infra")]);
        },
        DetailPanel::Placeholder => panic!("expected an instance detail panel"),
    }
}

#[test]
fn empty_catalog_projects_placeholder() {
    let catalog = Catalog { entries: Vec::new() };
    let vm = project(&catalog, 0);
    assert!(vm.rows.is_empty());
    assert!(matches!(vm.detail, DetailPanel::Placeholder));
}

#[test]
fn empty_group_projects_placeholder_label_and_detail() {
    let groups = vec![InstanceGroup { instances: Vec::new() }];
    let catalog = Catalog::load(groups).unwrap();
    let vm = project(&catalog, 0);
    assert_eq!(vm.rows.len(), 1);
    assert_eq!(vm.rows[0].label, "(no instance)");
    assert!(vm.rows[0].active);
    assert!(matches!(vm.detail, DetailPanel::Placeholder));
}

#[test]
fn projection_is_deterministic() {
    let catalog = catalog_of(&["i-1", "i-2"]);
    let a = project(&catalog, 0);
    let b = project(&catalog, 0);
    assert_eq!(a.rows.len(), b.rows.len());
    for (ra, rb) in a.rows.iter().zip(b.rows.iter()) {
        assert_eq!(ra.label, rb.label);
        assert_eq!(ra.active, rb.active);
    }
    match (&a.detail, &b.detail) {
        (
            DetailPanel::Instance { instance_type: ta, state_name: sa, tags: ga },
            DetailPanel::Instance { instance_type: tb, state_name: sb, tags: gb },
        ) => {
            assert_eq!(ta, tb);
            assert_eq!(sa, sb);
            assert_eq!(ga.len(), gb.len());
        },
        (DetailPanel::Placeholder, DetailPanel::Placeholder) => {},
        _ => panic!("the two projections disagree"),
    }
}

#[test]
fn projection_after_scenario_shows_second_group() {
    let mut app = App::new(catalog_of(&["i-1", "i-2", "i-3"]), "p".to_string());
    app.handle(InputEvent::MoveDown).unwrap();
    app.handle(InputEvent::MoveDown).unwrap();
    app.handle(InputEvent::MoveUp).unwrap();
    let vm = project(&app.catalog, app.selected_instance);
    assert!(vm.rows[1].active);
    match vm.detail {
        DetailPanel::Instance { tags, .. } => {
            assert_eq!(tags[0].value, "i-2");
        },
        DetailPanel::Placeholder => panic!("expected an instance detail panel"),
    }
}

#[test]
fn session_command_targets_instance_and_profile() {
    let argv = session_command("i-0123456789abcdef0", "work-profile");
    assert_eq!(
        argv,
        vec![
            "gnome-terminal",
            "--",
            "aws",
            "ssm",
            "start-session",
            "--target",
            "i-0123456789abcdef0",
            "--profile",
            "work-profile",
        ]
    );
}
