use vulkan_bootstrap::app::{Action, Application, LifetimeError, Resource, ResourceKind};

fn build(shader_modules: usize) -> Application {
    let mut app = Application::new(shader_modules);
    let mut handle = 100u64;
    while let Action::Create(_) = app.next_action() {
        assert_eq!(app.created(handle), Ok(()));
        handle += 1;
    }
    app
}

#[test]
fn objects_are_created_in_dependency_order() {
    let mut app = Application::new(2);
    let mut kinds = Vec::new();
    let mut handle = 1u64;
    while let Action::Create(kind) = app.next_action() {
        kinds.push(kind);
        app.created(handle).unwrap();
        handle += 1;
    }
    assert_eq!(app.next_action(), Action::Ready);
    assert_eq!(
        kinds,
        vec![
            ResourceKind::Instance,
            ResourceKind::Surface,
            ResourceKind::Device,
            ResourceKind::Swapchain,
            ResourceKind::ShaderModule,
            ResourceKind::ShaderModule,
            ResourceKind::RenderPass,
            ResourceKind::PipelineLayout,
            ResourceKind::Pipeline,
        ]
    );
}

#[test]
fn teardown_order_is_the_reverse_of_creation() {
    let app = build(2);
    let order = app.teardown_order();
    assert_eq!(
        order,
        vec![
            Resource { kind: ResourceKind::Pipeline, handle: 108 },
            Resource { kind: ResourceKind::PipelineLayout, handle: 107 },
            Resource { kind: ResourceKind::RenderPass, handle: 106 },
            Resource { kind: ResourceKind::ShaderModule, handle: 105 },
            Resource { kind: ResourceKind::ShaderModule, handle: 104 },
            Resource { kind: ResourceKind::Swapchain, handle: 103 },
            Resource { kind: ResourceKind::Device, handle: 102 },
            Resource { kind: ResourceKind::Surface, handle: 101 },
            Resource { kind: ResourceKind::Instance, handle: 100 },
        ]
    );
}

#[test]
fn shutdown_destroys_every_object_once_and_leaves_none() {
    let mut app = build(3);
    let expected = app.teardown_order();
    app.shutdown();
    let mut destroyed = Vec::new();
    while let Action::Destroy(resource) = app.next_action() {
        assert!(!destroyed.contains(&resource));
        destroyed.push(resource);
        assert_eq!(app.destroyed(), Some(resource));
        assert!(!app.owns(resource));
    }
    assert_eq!(app.next_action(), Action::Finished);
    assert_eq!(destroyed, expected);
    assert_eq!(destroyed.len(), 10);
    assert!(app.resources.is_empty());
    assert_eq!(app.destroyed(), None);
}

#[test]
fn failed_creation_unwinds_what_was_created() {
    let mut app = Application::new(2);
    for handle in 1..=6u64 {
        app.created(handle).unwrap();
    }
    assert_eq!(app.next_action(), Action::Create(ResourceKind::RenderPass));
    app.created(7).unwrap();
    assert_eq!(app.next_action(), Action::Create(ResourceKind::PipelineLayout));
    app.shutdown();
    assert_eq!(
        app.next_action(),
        Action::Destroy(Resource { kind: ResourceKind::RenderPass, handle: 7 })
    );
    let mut kinds = Vec::new();
    while let Some(resource) = app.destroyed() {
        kinds.push(resource.kind);
    }
    assert_eq!(
        kinds,
        vec![
            ResourceKind::RenderPass,
            ResourceKind::ShaderModule,
            ResourceKind::ShaderModule,
            ResourceKind::Swapchain,
            ResourceKind::Device,
            ResourceKind::Surface,
            ResourceKind::Instance,
        ]
    );
    assert_eq!(app.next_action(), Action::Finished);
}

#[test]
fn nothing_is_destroyed_while_the_chain_is_built() {
    let mut app = Application::new(0);
    app.created(1).unwrap();
    assert_eq!(app.destroyed(), None);
    assert_eq!(app.resources.len(), 1);
}

#[test]
fn object_cannot_be_owned_twice() {
    let mut app = Application::new(2);
    for handle in 1..=5u64 {
        app.created(handle).unwrap();
    }
    assert_eq!(app.next_action(), Action::Create(ResourceKind::ShaderModule));
    assert_eq!(app.created(5), Err(LifetimeError::AlreadyOwned));
    assert_eq!(app.resources.len(), 5);
    assert_eq!(app.created(4), Ok(()));
    assert_eq!(app.next_action(), Action::Create(ResourceKind::RenderPass));
}

#[test]
fn handles_of_different_kinds_may_be_equal() {
    let mut app = Application::new(0);
    while let Action::Create(_) = app.next_action() {
        assert_eq!(app.created(1), Ok(()));
    }
    assert_eq!(app.resources.len(), 7);
}

#[test]
fn nothing_is_created_on_a_complete_or_closing_chain() {
    let mut app = build(1);
    assert_eq!(app.next_action(), Action::Ready);
    assert_eq!(app.created(999), Err(LifetimeError::NotCreating));
    assert_eq!(app.resources.len(), 8);
    let mut closing = Application::new(1);
    closing.created(1).unwrap();
    closing.shutdown();
    assert_eq!(closing.created(2), Err(LifetimeError::NotCreating));
    assert_eq!(closing.resources.len(), 1);
}

#[test]
fn empty_application_finishes_at_once() {
    let mut app = Application::new(2);
    assert_eq!(app.next_action(), Action::Create(ResourceKind::Instance));
    assert!(app.teardown_order().is_empty());
    app.shutdown();
    assert_eq!(app.next_action(), Action::Finished);
}

#[test]
fn object_is_destroyed_while_what_it_depends_on_is_still_owned() {
    let mut app = build(2);
    app.shutdown();
    while let Action::Destroy(resource) = app.next_action() {
        let needed: Vec<ResourceKind> = match resource.kind {
            ResourceKind::Instance => vec![],
            ResourceKind::Surface => vec![ResourceKind::Instance],
            ResourceKind::Device => vec![ResourceKind::Instance, ResourceKind::Surface],
            ResourceKind::Swapchain => vec![ResourceKind::Device, ResourceKind::Surface],
            ResourceKind::ShaderModule => vec![ResourceKind::Device],
            ResourceKind::RenderPass => vec![ResourceKind::Device],
            ResourceKind::PipelineLayout => vec![ResourceKind::Device],
            ResourceKind::Pipeline => vec![
                ResourceKind::Device,
                ResourceKind::RenderPass,
                ResourceKind::PipelineLayout,
            ],
        };
        for kind in needed {
            assert!(app.resources.iter().any(|owned| owned.kind == kind));
        }
        app.destroyed();
    }
    assert!(app.resources.is_empty());
}
