use ascii_3d::group_expansion::{expand_scene, FlatObject, GroupStack, SceneNode};

fn leaf(id: &str) -> SceneNode {
    SceneNode::Leaf { id: id.to_string(), editor_composite: false }
}

fn flat(id: &str, editor_composite: bool, editor_hidden: bool) -> FlatObject {
    FlatObject { id: id.to_string(), editor_composite, editor_hidden }
}

#[test]
fn composite_group_expands_and_hides_children() {
    let scene = vec![SceneNode::Group {
        id: "logo".to_string(),
        editor_composite: true,
        children: vec![leaf("child")],
    }];

    let world = expand_scene(&scene);

    assert_eq!(world.len(), 2);
    assert_eq!(world[0], flat("logo", true, false));
    assert_eq!(world[1], flat("logo/child", false, true));
}

#[test]
fn nested_groups_qualify_ids_in_order() {
    let scene = vec![
        leaf("sun"),
        SceneNode::Group {
            id: "earth".to_string(),
            editor_composite: false,
            children: vec![
                leaf("moon"),
                SceneNode::Group {
                    id: "station".to_string(),
                    editor_composite: true,
                    children: vec![leaf("panel")],
                },
            ],
        },
        leaf("mars"),
    ];

    let world = expand_scene(&scene);

    assert_eq!(
        world,
        vec![
            flat("sun", false, false),
            flat("earth", false, false),
            flat("earth/moon", false, false),
            flat("earth/station", true, false),
            flat("earth/station/panel", false, true),
            flat("mars", false, false),
        ]
    );
}

#[test]
fn group_stack_refuses_cycles() {
    let mut reading = GroupStack::new();
    assert!(reading.enter("scene.a3d".to_string()));
    assert!(reading.enter("group/group.a3d".to_string()));
    assert!(!reading.enter("scene.a3d".to_string()));
    reading.leave(&"group/group.a3d".to_string());
    assert!(reading.enter("group/group.a3d".to_string()));
}
