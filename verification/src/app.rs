//! The chain of objects that an application owns: in which order they are
//! created, and in which order they are destroyed again.

use vstd::prelude::*;

verus! {

/// The kinds of object that an application creates, in the order of their
/// creation.
#[derive(Clone, Copy, Debug, PartialEq, Eq, Structural)]
pub enum ResourceKind {
    Instance,
    Surface,
    Device,
    Swapchain,
    ShaderModule,
    RenderPass,
    PipelineLayout,
    Pipeline,
}

/// An object that the application owns: its kind and its handle.
#[derive(Clone, Copy, Debug, PartialEq, Eq, Structural)]
pub struct Resource {
    pub kind: ResourceKind,
    pub handle: u64,
}

/// What the application's caller does next.
#[derive(Clone, Copy, Debug, PartialEq, Eq, Structural)]
pub enum Action {
    /// Create an object of this kind, and report how that went.
    Create(ResourceKind),
    /// Destroy this object, and report that it is gone.
    Destroy(Resource),
    /// Everything is created: run.
    Ready,
    /// Everything is destroyed: leave.
    Finished,
}

/// Why a report is turned down.
#[derive(Clone, Copy, Debug, PartialEq, Eq, Structural)]
pub enum LifetimeError {
    /// Nothing is being created: the chain is complete, or is being taken
    /// down.
    NotCreating,
    /// The application owns an object of this kind with this handle already.
    AlreadyOwned,
}

/// The kind of the object that stands at `index` of a chain with
/// `shader_modules` shader modules: instance, surface, device, swapchain, the
/// shader modules, render pass, pipeline layout, pipeline.
pub open spec fn kind_at(index: int, shader_modules: int) -> ResourceKind {
    if index == 0 {
        ResourceKind::Instance
    } else if index == 1 {
        ResourceKind::Surface
    } else if index == 2 {
        ResourceKind::Device
    } else if index == 3 {
        ResourceKind::Swapchain
    } else if index < 4 + shader_modules {
        ResourceKind::ShaderModule
    } else if index == 4 + shader_modules {
        ResourceKind::RenderPass
    } else if index == 5 + shader_modules {
        ResourceKind::PipelineLayout
    } else {
        ResourceKind::Pipeline
    }
}

/// Whether an object of the kind `kind` is created against one of the kind
/// `other`, and so must be gone before it.
pub open spec fn depends_on(kind: ResourceKind, other: ResourceKind) -> bool {
    match kind {
        ResourceKind::Instance => false,
        ResourceKind::Surface => other == ResourceKind::Instance,
        ResourceKind::Device => other == ResourceKind::Instance || other == ResourceKind::Surface,
        ResourceKind::Swapchain => other == ResourceKind::Device || other == ResourceKind::Surface,
        ResourceKind::ShaderModule => other == ResourceKind::Device,
        ResourceKind::RenderPass => other == ResourceKind::Device,
        ResourceKind::PipelineLayout => other == ResourceKind::Device,
        ResourceKind::Pipeline => other == ResourceKind::Device || other
            == ResourceKind::RenderPass || other == ResourceKind::PipelineLayout,
    }
}

/// The length of a complete chain with `shader_modules` shader modules.
pub open spec fn complete_length(shader_modules: int) -> int {
    shader_modules + 7
}

/// The objects of an application, and whether it is being taken down.
#[derive(Debug)]
pub struct Application {
    /// The objects that are owned, in the order of their creation.
    pub resources: Vec<Resource>,
    /// How many shader modules the pipeline is built from.
    pub shader_module_count: usize,
    /// Whether objects are destroyed rather than created: after a failure,
    /// and at the end.
    pub tearing_down: bool,
}

impl Application {
    /// The chain holds the kinds in their order, no object twice, and no more
    /// than a complete chain.
    pub open spec fn wf(&self) -> bool {
        &&& self.shader_module_count + 7 <= usize::MAX
        &&& self.resources@.len() <= complete_length(self.shader_module_count as int)
        &&& forall|i: int|
            0 <= i < self.resources@.len() ==> (#[trigger] self.resources@[i]).kind == kind_at(
                i,
                self.shader_module_count as int,
            )
        &&& self.resources@.no_duplicates()
    }

    /// Whether every object of the chain is created.
    pub open spec fn is_complete(&self) -> bool {
        self.resources@.len() == complete_length(self.shader_module_count as int)
    }

    /// What the caller does next. While the chain is built, the next object
    /// in order is created; while it is taken down, the youngest object is
    /// destroyed.
    pub open spec fn action(&self) -> Action {
        if self.tearing_down {
            if self.resources@.len() == 0 {
                Action::Finished
            } else {
                Action::Destroy(self.resources@.last())
            }
        } else if self.is_complete() {
            Action::Ready
        } else {
            Action::Create(
                kind_at(self.resources@.len() as int, self.shader_module_count as int),
            )
        }
    }

    /// The order in which the objects are destroyed: the reverse of their
    /// creation.
    pub open spec fn teardown(&self) -> Seq<Resource> {
        self.resources@.reverse()
    }

    /// An application that owns nothing yet and whose pipeline will be built
    /// from `shader_module_count` shader modules.
    pub fn new(shader_module_count: usize) -> (app: Self)
        requires
            shader_module_count + 7 <= usize::MAX,
        ensures
            app.wf(),
            app.resources@.len() == 0,
            app.shader_module_count == shader_module_count,
            !app.tearing_down,
    {
        Application { resources: Vec::new(), shader_module_count, tearing_down: false }
    }

    /// Tells which kind of object stands at `index` of this application's
    /// chain.
    fn kind_for(&self, index: usize) -> (kind: ResourceKind)
        requires
            self.shader_module_count + 7 <= usize::MAX,
        ensures
            kind == kind_at(index as int, self.shader_module_count as int),
    {
        if index == 0 {
            ResourceKind::Instance
        } else if index == 1 {
            ResourceKind::Surface
        } else if index == 2 {
            ResourceKind::Device
        } else if index == 3 {
            ResourceKind::Swapchain
        } else if index < 4 + self.shader_module_count {
            ResourceKind::ShaderModule
        } else if index == 4 + self.shader_module_count {
            ResourceKind::RenderPass
        } else if index == 5 + self.shader_module_count {
            ResourceKind::PipelineLayout
        } else {
            ResourceKind::Pipeline
        }
    }

    /// Tells what the caller does next.
    pub fn next_action(&self) -> (next: Action)
        requires
            self.wf(),
        ensures
            next == self.action(),
    {
        let held: usize = self.resources.len();
        if self.tearing_down {
            if held == 0 {
                Action::Finished
            } else {
                Action::Destroy(self.resources[held - 1])
            }
        } else if held == self.shader_module_count + 7 {
            Action::Ready
        } else {
            Action::Create(self.kind_for(held))
        }
    }

    /// Tells whether the application owns `resource`.
    pub fn owns(&self, resource: Resource) -> (found: bool)
        ensures
            found == self.resources@.contains(resource),
    {
        let mut i: usize = 0;
        while i < self.resources.len()
            invariant
                i <= self.resources.len(),
                forall|j: int| 0 <= j < i ==> self.resources@[j] != resource,
            decreases self.resources.len() - i,
        {
            if self.resources[i] == resource {
                return true;
            }
            i += 1;
        }
        false
    }

    /// Takes note that the object asked for was created, with the handle
    /// `handle`. The report is turned down, and nothing changes, where no
    /// object was asked for or where the application owns that object
    /// already.
    pub fn created(&mut self, handle: u64) -> (result: Result<(), LifetimeError>)
        requires
            old(self).wf(),
        ensures
            final(self).wf(),
            final(self).shader_module_count == old(self).shader_module_count,
            final(self).tearing_down == old(self).tearing_down,
            match old(self).action() {
                Action::Create(kind) => {
                    let resource = Resource { kind, handle };
                    if old(self).resources@.contains(resource) {
                        &&& result == Err::<(), LifetimeError>(LifetimeError::AlreadyOwned)
                        &&& final(self).resources@ == old(self).resources@
                    } else {
                        &&& result.is_ok()
                        &&& final(self).resources@ == old(self).resources@.push(resource)
                    }
                },
                _ => {
                    &&& result == Err::<(), LifetimeError>(LifetimeError::NotCreating)
                    &&& final(self).resources@ == old(self).resources@
                },
            },
    {
        let held: usize = self.resources.len();
        if self.tearing_down || held == self.shader_module_count + 7 {
            return Err(LifetimeError::NotCreating);
        }
        let resource = Resource { kind: self.kind_for(held), handle };
        if self.owns(resource) {
            return Err(LifetimeError::AlreadyOwned);
        }
        self.resources.push(resource);
        Ok(())
    }

    /// Starts taking the chain down: after a creation that failed, or when
    /// the application ends. From here on objects are only destroyed.
    pub fn shutdown(&mut self)
        requires
            old(self).wf(),
        ensures
            final(self).wf(),
            final(self).tearing_down,
            final(self).resources@ == old(self).resources@,
            final(self).shader_module_count == old(self).shader_module_count,
    {
        self.tearing_down = true;
    }

    /// Takes note that the object whose destruction was asked for is gone,
    /// and returns it. Where none was asked for, nothing changes.
    pub fn destroyed(&mut self) -> (gone: Option<Resource>)
        requires
            old(self).wf(),
        ensures
            final(self).wf(),
            final(self).shader_module_count == old(self).shader_module_count,
            final(self).tearing_down == old(self).tearing_down,
            match old(self).action() {
                Action::Destroy(resource) => {
                    &&& gone == Some(resource)
                    &&& final(self).resources@ == old(self).resources@.drop_last()
                    &&& !final(self).resources@.contains(resource)
                },
                _ => gone.is_none() && final(self).resources@ == old(self).resources@,
            },
    {
        if !self.tearing_down {
            return None;
        }
        let gone: Option<Resource> = self.resources.pop();
        proof {
            if old(self).resources@.len() > 0 {
                let before = old(self).resources@;
                let after = before.drop_last();
                assert(self.resources@ == after);
                assert forall|j: int| 0 <= j < after.len() implies after[j] != before.last() by {
                    assert(after[j] == before[j]);
                }
            }
        }
        gone
    }

    /// Lists the objects in the order in which they are destroyed.
    pub fn teardown_order(&self) -> (order: Vec<Resource>)
        ensures
            order@ == self.teardown(),
    {
        let mut order: Vec<Resource> = Vec::new();
        let mut left: usize = self.resources.len();
        while left > 0
            invariant
                left <= self.resources.len(),
                order@.len() == self.resources.len() - left,
                forall|i: int|
                    0 <= i < order@.len() ==> order@[i] == self.resources@[self.resources@.len() - 1
                        - i],
            decreases left,
        {
            left -= 1;
            order.push(self.resources[left]);
        }
        proof {
            assert(order@ =~= self.resources@.reverse());
        }
        order
    }
}

/// The objects of a chain are destroyed in the reverse of their creation,
/// each once, and none is left: the order holds what the chain holds, no more
/// and no less, and nothing twice.
pub proof fn lemma_teardown_destroys_each_once(app: Application)
    requires
        app.wf(),
    ensures
        app.teardown().len() == app.resources@.len(),
        forall|i: int|
            0 <= i < app.resources@.len() ==> #[trigger] app.teardown()[i]
                == app.resources@[app.resources@.len() - 1 - i],
        app.teardown().no_duplicates(),
        app.teardown().to_multiset() == app.resources@.to_multiset(),
{
    app.resources@.lemma_reverse_to_multiset();
}

/// Of a complete chain the objects are destroyed in this order: the pipeline,
/// the pipeline layout, the render pass, the shader modules, the swapchain,
/// the device, the surface, the instance.
pub proof fn lemma_teardown_of_complete_chain(app: Application)
    requires
        app.wf(),
        app.is_complete(),
    ensures
        ({
            let order = app.teardown();
            let n = app.shader_module_count as int;
            &&& order.len() == n + 7
            &&& order[0].kind == ResourceKind::Pipeline
            &&& order[1].kind == ResourceKind::PipelineLayout
            &&& order[2].kind == ResourceKind::RenderPass
            &&& forall|i: int| 3 <= i < 3 + n ==> (#[trigger] order[i]).kind == ResourceKind::ShaderModule
            &&& order[3 + n].kind == ResourceKind::Swapchain
            &&& order[4 + n].kind == ResourceKind::Device
            &&& order[5 + n].kind == ResourceKind::Surface
            &&& order[6 + n].kind == ResourceKind::Instance
        }),
{
    let order = app.teardown();
    let n = app.shader_module_count as int;
    let held = app.resources@;
    assert forall|i: int| 0 <= i < n + 7 implies (#[trigger] order[i]).kind == kind_at(
        n + 6 - i,
        n,
    ) by {
        assert(order[i] == held[n + 6 - i]);
    }
}

/// No object outlives what it was created against: whenever an object is
/// destroyed, an object of each kind that it depends on is destroyed later.
pub proof fn lemma_dependents_are_destroyed_first(app: Application, i: int, other: ResourceKind)
    requires
        app.wf(),
        0 <= i < app.teardown().len(),
        depends_on(app.teardown()[i].kind, other),
    ensures
        exists|j: int| i < j < app.teardown().len() && (#[trigger] app.teardown()[j]).kind == other,
{
    let order = app.teardown();
    let len = order.len() as int;
    let n = app.shader_module_count as int;
    assert forall|k: int| 0 <= k < len implies (#[trigger] order[k]).kind == kind_at(
        len - 1 - k,
        n,
    ) by {
        assert(order[k] == app.resources@[len - 1 - k]);
    }
    let created_at: int = match other {
        ResourceKind::Instance => 0,
        ResourceKind::Surface => 1,
        ResourceKind::Device => 2,
        ResourceKind::RenderPass => 4 + n,
        _ => 5 + n,
    };
    let j = len - 1 - created_at;
    assert(order[j].kind == other);
}

/// While a chain is taken down, the object to destroy next is the first of
/// the order that is left, and once it is gone the rest of that order is
/// left.
pub proof fn lemma_destruction_follows_teardown(before: Application, after: Application)
    requires
        before.wf(),
        before.tearing_down,
        before.resources@.len() > 0,
        after.resources@ == before.resources@.drop_last(),
    ensures
        before.action() == Action::Destroy(before.teardown()[0]),
        after.teardown() == before.teardown().skip(1),
{
    assert(after.teardown() =~= before.teardown().skip(1));
}

} // verus!
