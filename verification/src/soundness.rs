//! What holds of every state of the machine: the heap is sound.
//!
//! A heap is sound when every place that it refers to exists, when every
//! environment but the global one is enclosed by an environment that is
//! older than itself, and when every class extends a class that is older
//! than itself. The machine that is made for a program has a sound heap,
//! and no step of the machine makes a sound heap unsound. So every chain
//! of environments ends at the global environment, and no function,
//! instance or class is ever lost.
use vstd::prelude::*;
use crate::ast::{ClassStmtView, ExpressionView, FunctionStmtView, StatementView};
use crate::class::{ClassInstanceView, MetaClassView};
use crate::environment::EnvironmentView;
use crate::error::FoxErrorView;
use crate::func::FuncView;
use crate::heap::{HeapView, initializer_name, keyword_super, keyword_this};
use crate::machine::{
    ActionView, FrameView, InterpreterView, Reply, Step, bound_parameters, class_methods, key_of, settled,
};
use crate::object::ObjectView;
use crate::token::TokenView;

verus! {

/// How many environments, instances and classes a heap holds.
pub struct Sizes {
    pub environments: nat,
    pub instances: nat,
    pub classes: nat,
}

impl Sizes {
    /// Whether a heap of these sizes holds every place of a heap of the
    /// other sizes.
    pub open spec fn holds(self, other: Sizes) -> bool {
        &&& other.environments <= self.environments
        &&& other.instances <= self.instances
        &&& other.classes <= self.classes
    }
}

impl FuncView {
    /// Whether the environment of the function is a place of the heap.
    pub open spec fn fits(self, sizes: Sizes) -> bool {
        self.closure < sizes.environments
    }
}

impl ObjectView {
    /// Whether every place that the value refers to is a place of the heap.
    pub open spec fn fits(self, sizes: Sizes) -> bool {
        match self {
            ObjectView::Callee(function) => function.fits(sizes),
            ObjectView::Class(class) => class < sizes.classes,
            ObjectView::Instance(instance) => instance < sizes.instances,
            _ => true,
        }
    }
}

/// Whether every value of a table fits.
pub open spec fn values_fit(values: Map<Seq<char>, ObjectView>, sizes: Sizes) -> bool {
    forall|name: Seq<char>| #[trigger] values.contains_key(name) ==> values[name].fits(sizes)
}

/// Whether every method of a table fits.
pub open spec fn methods_fit(methods: Map<Seq<char>, FuncView>, sizes: Sizes) -> bool {
    forall|name: Seq<char>| #[trigger] methods.contains_key(name) ==> methods[name].fits(sizes)
}

/// Whether every value of a sequence fits.
pub open spec fn all_fit(values: Seq<ObjectView>, sizes: Sizes) -> bool {
    forall|i: int| 0 <= i < values.len() ==> (#[trigger] values[i]).fits(sizes)
}

impl EnvironmentView {
    /// Whether the environment can stand at the place `at` of a heap: its
    /// values fit, and it is enclosed by an older environment, or by none
    /// if it is the first.
    pub open spec fn sound(self, at: int, sizes: Sizes) -> bool {
        &&& values_fit(self.values, sizes)
        &&& match self.enclosing {
            Some(outer) => outer < at,
            None => at == 0,
        }
    }
}

impl ClassInstanceView {
    /// Whether the instance can stand in a heap: its fields fit, and its
    /// class is a place of the heap.
    pub open spec fn sound(self, sizes: Sizes) -> bool {
        &&& values_fit(self.fields, sizes)
        &&& self.meta_class_ref < sizes.classes
    }
}

impl MetaClassView {
    /// Whether the class can stand at the place `at` of a heap: its
    /// methods fit, and it extends an older class or none.
    pub open spec fn sound(self, at: int, sizes: Sizes) -> bool {
        &&& methods_fit(self.methods, sizes)
        &&& match self.superclass {
            Some(superclass) => superclass < at,
            None => true,
        }
    }
}

impl HeapView {
    pub open spec fn sizes(self) -> Sizes {
        Sizes {
            environments: self.environments.len(),
            instances: self.instances.len(),
            classes: self.classes.len(),
        }
    }

    /// Whether the heap is sound.
    pub open spec fn sound(self) -> bool {
        &&& self.environments.len() <= usize::MAX
        &&& self.instances.len() <= usize::MAX
        &&& self.classes.len() <= usize::MAX
        &&& forall|at: int| 0 <= at < self.environments.len() ==> (#[trigger] self.environments[at]).sound(at, self.sizes())
        &&& forall|at: int| 0 <= at < self.instances.len() ==> (#[trigger] self.instances[at]).sound(self.sizes())
        &&& forall|at: int| 0 <= at < self.classes.len() ==> (#[trigger] self.classes[at]).sound(at, self.sizes())
    }

    /// Where the chain of environments that starts at an environment ends.
    pub open spec fn root(self, environment: int) -> int
        decreases environment,
    {
        if 0 <= environment < self.environments.len() {
            match self.environments[environment].enclosing {
                Some(outer) => if outer < environment {
                    self.root(outer as int)
                } else {
                    environment
                },
                None => environment,
            }
        } else {
            environment
        }
    }
}

/// What fits a heap fits every heap that holds its places.
pub proof fn lemma_fits_grows(value: ObjectView, sizes: Sizes, larger: Sizes)
    requires
        value.fits(sizes),
        larger.holds(sizes),
    ensures
        value.fits(larger),
{
}

/// In a sound heap every chain of environments ends at the first
/// environment, which is the global one.
pub proof fn lemma_chain_ends_at_the_globals(heap: HeapView, environment: int)
    requires
        heap.sound(),
        0 <= environment < heap.environments.len(),
    ensures
        heap.root(environment) == 0,
    decreases environment,
{
    match heap.environments[environment].enclosing {
        Some(outer) => {
            lemma_chain_ends_at_the_globals(heap, outer as int);
        },
        None => {},
    }
}

/// A sound heap stays sound when a value that fits is bound in one of its
/// environments.
pub proof fn lemma_define_keeps_sound(heap: HeapView, environment: usize, name: Seq<char>, value: ObjectView)
    requires
        heap.sound(),
        value.fits(heap.sizes()),
    ensures
        heap.define(environment, name, value).sound(),
        heap.define(environment, name, value).sizes() == heap.sizes(),
{
    let after = heap.define(environment, name, value);
    assert forall|at: int| 0 <= at < after.environments.len() implies (#[trigger] after.environments[at]).sound(
        at,
        after.sizes(),
    ) by {
        assert(heap.environments[at].sound(at, heap.sizes()));
    }
    assert forall|at: int| 0 <= at < after.instances.len() implies (#[trigger] after.instances[at]).sound(
        after.sizes(),
    ) by {
        assert(heap.instances[at].sound(heap.sizes()));
    }
    assert forall|at: int| 0 <= at < after.classes.len() implies (#[trigger] after.classes[at]).sound(
        at,
        after.sizes(),
    ) by {
        assert(heap.classes[at].sound(at, heap.sizes()));
    }
}

/// A sound heap stays sound when a field of one of its instances is set
/// to a value that fits.
pub proof fn lemma_set_field_keeps_sound(heap: HeapView, instance: usize, name: Seq<char>, value: ObjectView)
    requires
        heap.sound(),
        value.fits(heap.sizes()),
    ensures
        heap.set_field(instance, name, value).sound(),
        heap.set_field(instance, name, value).sizes() == heap.sizes(),
{
    let after = heap.set_field(instance, name, value);
    assert forall|at: int| 0 <= at < after.environments.len() implies (#[trigger] after.environments[at]).sound(
        at,
        after.sizes(),
    ) by {
        assert(heap.environments[at].sound(at, heap.sizes()));
    }
    assert forall|at: int| 0 <= at < after.instances.len() implies (#[trigger] after.instances[at]).sound(
        after.sizes(),
    ) by {
        assert(heap.instances[at].sound(heap.sizes()));
    }
    assert forall|at: int| 0 <= at < after.classes.len() implies (#[trigger] after.classes[at]).sound(
        at,
        after.sizes(),
    ) by {
        assert(heap.classes[at].sound(at, heap.sizes()));
    }
}

/// Whatever stood soundly in a heap stands soundly in a larger one.
proof fn lemma_sound_grows(heap: HeapView, larger: Sizes)
    requires
        heap.sound(),
        larger.holds(heap.sizes()),
    ensures
        forall|at: int| 0 <= at < heap.environments.len() ==> (#[trigger] heap.environments[at]).sound(at, larger),
        forall|at: int| 0 <= at < heap.instances.len() ==> (#[trigger] heap.instances[at]).sound(larger),
        forall|at: int| 0 <= at < heap.classes.len() ==> (#[trigger] heap.classes[at]).sound(at, larger),
{
    assert forall|at: int| 0 <= at < heap.environments.len() implies (#[trigger] heap.environments[at]).sound(
        at,
        larger,
    ) by {
        assert(heap.environments[at].sound(at, heap.sizes()));
    }
    assert forall|at: int| 0 <= at < heap.instances.len() implies (#[trigger] heap.instances[at]).sound(larger) by {
        assert(heap.instances[at].sound(heap.sizes()));
    }
    assert forall|at: int| 0 <= at < heap.classes.len() implies (#[trigger] heap.classes[at]).sound(at, larger) by {
        assert(heap.classes[at].sound(at, heap.sizes()));
    }
}

/// A sound heap stays sound when it gets an environment whose values fit
/// and which is enclosed by an environment of the heap.
pub proof fn lemma_with_environment_keeps_sound(heap: HeapView, environment: EnvironmentView)
    requires
        heap.sound(),
        heap.environments.len() < usize::MAX,
        values_fit(environment.values, heap.sizes()),
        environment.enclosing matches Some(outer) && outer < heap.environments.len(),
    ensures
        heap.with_environment(environment).sound(),
        heap.with_environment(environment).sizes() == (Sizes {
            environments: heap.environments.len() + 1,
            ..heap.sizes()
        }),
{
    let after = heap.with_environment(environment);
    lemma_sound_grows(heap, after.sizes());
    assert forall|at: int| 0 <= at < after.environments.len() implies (#[trigger] after.environments[at]).sound(
        at,
        after.sizes(),
    ) by {
        if at < heap.environments.len() {
            assert(after.environments[at] == heap.environments[at]);
        }
    }
}

/// A sound heap stays sound when it gets an instance of one of its
/// classes whose fields fit.
pub proof fn lemma_with_instance_keeps_sound(heap: HeapView, instance: ClassInstanceView)
    requires
        heap.sound(),
        heap.instances.len() < usize::MAX,
        instance.sound(heap.sizes()),
    ensures
        heap.with_instance(instance).sound(),
        heap.with_instance(instance).sizes() == (Sizes { instances: heap.instances.len() + 1, ..heap.sizes() }),
{
    let after = heap.with_instance(instance);
    lemma_sound_grows(heap, after.sizes());
    assert forall|at: int| 0 <= at < after.instances.len() implies (#[trigger] after.instances[at]).sound(
        after.sizes(),
    ) by {
        if at < heap.instances.len() {
            assert(after.instances[at] == heap.instances[at]);
        }
    }
}

/// A sound heap stays sound when it gets a class whose methods fit and
/// which extends a class of the heap, or none.
pub proof fn lemma_with_class_keeps_sound(heap: HeapView, class: MetaClassView)
    requires
        heap.sound(),
        heap.classes.len() < usize::MAX,
        class.sound(heap.classes.len() as int, heap.sizes()),
    ensures
        heap.with_class(class).sound(),
        heap.with_class(class).sizes() == (Sizes { classes: heap.classes.len() + 1, ..heap.sizes() }),
{
    let after = heap.with_class(class);
    lemma_sound_grows(heap, after.sizes());
    assert forall|at: int| 0 <= at < after.classes.len() implies (#[trigger] after.classes[at]).sound(
        at,
        after.sizes(),
    ) by {
        if at < heap.classes.len() {
            assert(after.classes[at] == heap.classes[at]);
        }
    }
}

/// The environment that binds a name for another one is a place of the
/// heap, and binds the name.
pub proof fn lemma_owner_is_there(heap: HeapView, environment: usize, name: Seq<char>)
    ensures
        heap.owner(environment, name) matches Some(owner) ==> owner < heap.environments.len()
            && heap.environments[owner as int].values.contains_key(name),
    decreases environment,
{
    if environment < heap.environments.len() && !heap.environments[environment as int].values.contains_key(name) {
        match heap.environments[environment as int].enclosing {
            Some(outer) => {
                if outer < environment {
                    lemma_owner_is_there(heap, outer, name);
                }
            },
            None => {},
        }
    }
}

/// What is read from a sound heap fits the heap.
pub proof fn lemma_get_fits(heap: HeapView, environment: usize, token: TokenView)
    requires
        heap.sound(),
    ensures
        heap.get(environment, token) matches Ok(value) ==> value.fits(heap.sizes()),
{
    lemma_owner_is_there(heap, environment, token.lexeme);
    match heap.owner(environment, token.lexeme) {
        Some(owner) => {
            assert(heap.environments[owner as int].sound(owner as int, heap.sizes()));
        },
        None => {},
    }
}

/// What is read from a sound heap at a distance fits the heap.
pub proof fn lemma_get_at_fits(heap: HeapView, environment: usize, distance: usize, name: Seq<char>)
    requires
        heap.sound(),
    ensures
        heap.get_at(environment, distance, name) matches Ok(value) ==> value.fits(heap.sizes()),
{
    match heap.ancestor(environment, distance) {
        Ok(ancestor) => {
            if ancestor < heap.environments.len() {
                assert(heap.environments[ancestor as int].sound(ancestor as int, heap.sizes()));
            }
        },
        Err(_) => {},
    }
}

/// A sound heap stays sound when a value that fits is assigned to a
/// variable.
pub proof fn lemma_assign_keeps_sound(heap: HeapView, environment: usize, token: TokenView, value: ObjectView)
    requires
        heap.sound(),
        value.fits(heap.sizes()),
    ensures
        heap.assign(environment, token, value) matches Ok(after) ==> after.sound() && after.sizes() == heap.sizes(),
{
    match heap.owner(environment, token.lexeme) {
        Some(owner) => {
            lemma_define_keeps_sound(heap, owner, token.lexeme, value);
        },
        None => {},
    }
}

/// A sound heap stays sound when a value that fits is assigned to a
/// variable at a distance.
pub proof fn lemma_assign_at_keeps_sound(
    heap: HeapView,
    environment: usize,
    distance: usize,
    name: Seq<char>,
    value: ObjectView,
)
    requires
        heap.sound(),
        value.fits(heap.sizes()),
    ensures
        heap.assign_at(environment, distance, name, value) matches Ok(after) ==> after.sound() && after.sizes()
            == heap.sizes(),
{
    match heap.ancestor(environment, distance) {
        Ok(ancestor) => {
            lemma_define_keeps_sound(heap, ancestor, name, value);
        },
        Err(_) => {},
    }
}

/// A method that is found in a sound heap fits the heap.
pub proof fn lemma_find_method_fits(heap: HeapView, class: usize, name: Seq<char>)
    requires
        heap.sound(),
    ensures
        heap.find_method(class, name) matches Some(method) ==> method.fits(heap.sizes()),
    decreases class,
{
    if class < heap.classes.len() {
        assert(heap.classes[class as int].sound(class as int, heap.sizes()));
        if !heap.classes[class as int].methods.contains_key(name) {
            match heap.classes[class as int].superclass {
                Some(superclass) => {
                    if superclass < class {
                        lemma_find_method_fits(heap, superclass, name);
                    }
                },
                None => {},
            }
        }
    }
}

/// A sound heap stays sound when a method that fits is bound to one of
/// its instances, and the bound method fits the heap that it is bound in.
pub proof fn lemma_bind_keeps_sound(heap: HeapView, method: FuncView, instance: usize)
    requires
        heap.sound(),
        heap.environments.len() < usize::MAX,
        method.fits(heap.sizes()),
        instance < heap.instances.len(),
    ensures
        heap.bind(method, instance).0.sound(),
        heap.bind(method, instance).0.sizes() == (Sizes {
            environments: heap.environments.len() + 1,
            ..heap.sizes()
        }),
        heap.bind(method, instance).1.fits(heap.bind(method, instance).0.sizes()),
{
    let environment = EnvironmentView {
        values: Map::empty().insert(crate::heap::keyword_this(), ObjectView::Instance(instance)),
        enclosing: Some(method.closure),
    };
    lemma_with_environment_keeps_sound(heap, environment);
}

/// A sound heap stays sound when a property is read from it, and what is
/// read fits the heap as it is then.
pub proof fn lemma_property_keeps_sound(heap: HeapView, instance: usize, name: TokenView)
    requires
        heap.sound(),
        heap.environments.len() < usize::MAX,
    ensures
        heap.property(instance, name) matches Ok((after, value)) ==> after.sound() && after.sizes().holds(
            heap.sizes(),
        ) && after.sizes().environments <= heap.environments.len() + 1 && after.sizes().instances
            == heap.instances.len() && after.sizes().classes == heap.classes.len() && value.fits(after.sizes()),
{
    if instance < heap.instances.len() {
        assert(heap.instances[instance as int].sound(heap.sizes()));
        if !heap.instances[instance as int].fields.contains_key(name.lexeme) {
            let class = heap.instances[instance as int].meta_class_ref;
            lemma_find_method_fits(heap, class, name.lexeme);
            match heap.find_method(class, name.lexeme) {
                Some(method) => {
                    lemma_bind_keeps_sound(heap, method, instance);
                },
                None => {},
            }
        }
    }
}

/// A sound heap stays sound when an instance of one of its classes is
/// made, and the initializer that is bound to the instance fits.
pub proof fn lemma_constructor_keeps_sound(heap: HeapView, class: usize)
    requires
        heap.sound(),
        heap.environments.len() < usize::MAX,
        heap.instances.len() < usize::MAX,
        class < heap.classes.len(),
    ensures
        heap.constructor(class).0.sound(),
        heap.constructor(class).0.sizes().holds(heap.sizes()),
        heap.constructor(class).0.sizes().environments <= heap.environments.len() + 1,
        heap.constructor(class).0.sizes().instances == heap.instances.len() + 1,
        heap.constructor(class).0.sizes().classes == heap.classes.len(),
        heap.constructor(class).1 < heap.constructor(class).0.instances.len(),
        heap.constructor(class).2 matches Some(initializer) ==> initializer.fits(heap.constructor(class).0.sizes()),
{
    let instance = ClassInstanceView { meta_class_ref: class, fields: Map::empty() };
    lemma_with_instance_keeps_sound(heap, instance);
    let made = heap.with_instance(instance);
    lemma_find_method_fits(heap, class, crate::heap::initializer_name());
    match heap.find_method(class, crate::heap::initializer_name()) {
        Some(initializer) => {
            lemma_bind_keeps_sound(made, initializer, heap.instances.len() as usize);
        },
        None => {},
    }
}

impl FrameView {
    /// Whether every place that the frame refers to is a place of the
    /// heap.
    pub open spec fn fits(self, sizes: Sizes) -> bool {
        match self {
            FrameView::Restore { environment } => environment < sizes.environments,
            FrameView::Return { closure, restore, .. } => closure < sizes.environments && restore
                < sizes.environments,
            FrameView::BinaryApply { left, .. } => left.fits(sizes),
            FrameView::Argument { callee, values, .. } => callee.fits(sizes) && all_fit(values, sizes),
            FrameView::SetValue { instance, .. } => instance < sizes.instances,
            _ => true,
        }
    }
}

/// Whether every frame of a stack fits.
pub open spec fn frames_fit(stack: Seq<FrameView>, sizes: Sizes) -> bool {
    forall|i: int| 0 <= i < stack.len() ==> (#[trigger] stack[i]).fits(sizes)
}

impl InterpreterView {
    /// Whether the machine is sound: its heap is, it stands in an
    /// environment of the heap, its globals are the first environment, and
    /// its frames and its value fit the heap.
    pub open spec fn sound(self) -> bool {
        &&& self.heap.sound()
        &&& self.environment < self.heap.environments.len()
        &&& self.globals == 0
        &&& frames_fit(self.stack, self.heap.sizes())
        &&& match self.value {
            Some(value) => value.fits(self.heap.sizes()),
            None => true,
        }
    }

    /// Whether the heap has room for what one step can make: two
    /// environments, an instance and a class.
    pub open spec fn roomy(self) -> bool {
        &&& self.heap.environments.len() + 2 <= usize::MAX
        &&& self.heap.instances.len() + 1 <= usize::MAX
        &&& self.heap.classes.len() + 1 <= usize::MAX
    }

    /// Whether the machine can have come from a sound machine by one
    /// step: it is sound, it has lost nothing of the heap, and it has made
    /// no more than a step can make.
    pub open spec fn follows(self, before: InterpreterView) -> bool {
        &&& self.sound()
        &&& self.locals == before.locals
        &&& self.heap.sizes().holds(before.heap.sizes())
        &&& self.heap.environments.len() <= before.heap.environments.len() + 2
        &&& self.heap.instances.len() <= before.heap.instances.len() + 1
        &&& self.heap.classes.len() <= before.heap.classes.len() + 1
    }
}

/// A stack that fits a heap fits every heap that holds its places.
proof fn lemma_frames_grow(stack: Seq<FrameView>, sizes: Sizes, larger: Sizes)
    requires
        frames_fit(stack, sizes),
        larger.holds(sizes),
    ensures
        frames_fit(stack, larger),
{
    assert forall|i: int| 0 <= i < stack.len() implies (#[trigger] stack[i]).fits(larger) by {
        assert(stack[i].fits(sizes));
    }
}

/// The machine with other contents of its heap, which is still sound and
/// holds every place that it held.
proof fn lemma_with_heap(machine: InterpreterView, heap: HeapView)
    requires
        machine.sound(),
        heap.sound(),
        heap.sizes().holds(machine.heap.sizes()),
    ensures
        (InterpreterView { heap, ..machine }).sound(),
{
    lemma_frames_grow(machine.stack, machine.heap.sizes(), heap.sizes());
}

/// The environment in which the machine ends up when it abandons all its
/// frames is a place of the heap.
proof fn lemma_settled_fits(stack: Seq<FrameView>, environment: usize, sizes: Sizes)
    requires
        frames_fit(stack, sizes),
        environment < sizes.environments,
    ensures
        settled(stack, environment) < sizes.environments,
    decreases stack.len(),
{
    if stack.len() > 0 {
        assert(stack.last().fits(sizes));
        let next = match stack.last() {
            FrameView::Restore { environment } => environment,
            FrameView::Return { restore, .. } => restore,
            _ => environment,
        };
        assert(frames_fit(stack.drop_last(), sizes)) by {
            assert forall|i: int| 0 <= i < stack.drop_last().len() implies (#[trigger] stack.drop_last()[i]).fits(
                sizes,
            ) by {
                assert(stack[i].fits(sizes));
            }
        }
        lemma_settled_fits(stack.drop_last(), next, sizes);
    }
}

proof fn lemma_push(machine: InterpreterView, frame: FrameView)
    requires
        machine.sound(),
        frame.fits(machine.heap.sizes()),
    ensures
        machine.push(frame).sound(),
        machine.push(frame).heap == machine.heap,
        machine.push(frame).locals == machine.locals,
{
    let after = machine.push(frame);
    assert forall|i: int| 0 <= i < after.stack.len() implies (#[trigger] after.stack[i]).fits(after.heap.sizes()) by {
        if i < machine.stack.len() {
            assert(machine.stack[i].fits(machine.heap.sizes()));
        }
    }
}

proof fn lemma_pop(machine: InterpreterView)
    requires
        machine.sound(),
        machine.stack.len() > 0,
    ensures
        (InterpreterView { stack: machine.stack.drop_last(), ..machine }).sound(),
        machine.stack.last().fits(machine.heap.sizes()),
{
    let after = InterpreterView { stack: machine.stack.drop_last(), ..machine };
    assert forall|i: int| 0 <= i < after.stack.len() implies (#[trigger] after.stack[i]).fits(after.heap.sizes()) by {
        assert(machine.stack[i].fits(machine.heap.sizes()));
    }
}

proof fn lemma_fails(machine: InterpreterView, error: FoxErrorView)
    requires
        machine.sound(),
    ensures
        machine.fails(error).0.follows(machine),
{
    lemma_settled_fits(machine.stack, machine.environment, machine.heap.sizes());
}

proof fn lemma_look_up_variable(machine: InterpreterView, name: TokenView)
    requires
        machine.sound(),
    ensures
        machine.look_up_variable(name) matches Ok(value) ==> value.fits(machine.heap.sizes()),
{
    lemma_get_fits(machine.heap, machine.globals, name);
    if machine.locals.contains_key(key_of(name)) {
        lemma_get_at_fits(machine.heap, machine.environment, machine.locals[key_of(name)], name.lexeme);
    }
}

proof fn lemma_visit_super(machine: InterpreterView, keyword: TokenView, method: TokenView)
    requires
        machine.sound(),
        machine.roomy(),
    ensures
        machine.visit_super(keyword, method).0.follows(machine),
{
    lemma_fails(machine, FoxErrorView::bug("Distance for super must be set"@));
    if machine.locals.contains_key(key_of(keyword)) {
        let distance = machine.locals[key_of(keyword)];
        lemma_get_at_fits(machine.heap, machine.environment, distance, keyword_super());
        match machine.heap.get_at(machine.environment, distance, keyword_super()) {
            Err(error) => {
                lemma_fails(machine, error);
            },
            Ok(superclass) => {
                lemma_fails(machine, FoxErrorView::bug("Expected a class"@));
                lemma_fails(machine, FoxErrorView::bug("Distance for super must not be zero"@));
                if superclass is Class && distance != 0 {
                    lemma_get_at_fits(machine.heap, machine.environment, (distance - 1) as usize, keyword_this());
                    match machine.heap.get_at(machine.environment, (distance - 1) as usize, keyword_this()) {
                        Err(error) => {
                            lemma_fails(machine, error);
                        },
                        Ok(object) => {
                            lemma_fails(machine, FoxErrorView::bug("Expected a class instance"@));
                            if object is Instance {
                                lemma_find_method_fits(machine.heap, superclass->Class_0, method.lexeme);
                                match machine.heap.find_method(superclass->Class_0, method.lexeme) {
                                    None => {
                                        lemma_fails(
                                            machine,
                                            FoxErrorView::runtime(
                                                Some(method),
                                                "Undefined property '"@ + method.lexeme + "'"@,
                                            ),
                                        );
                                    },
                                    Some(found) => {
                                        lemma_bind_keeps_sound(machine.heap, found, object->Instance_0);
                                        let bound = machine.heap.bind(found, object->Instance_0);
                                        lemma_with_heap(machine, bound.0);
                                    },
                                }
                            }
                        },
                    }
                }
            },
        }
    }
}

proof fn lemma_evaluate(machine: InterpreterView, expression: ExpressionView)
    requires
        machine.sound(),
        machine.roomy(),
        machine.value is None,
    ensures
        machine.evaluate(expression).0.follows(machine),
{
    match expression {
        ExpressionView::Literal { value } => {},
        ExpressionView::Grouping { expression } => {
            lemma_push(machine, FrameView::Evaluate { expression: *expression });
        },
        ExpressionView::Unary { expression, operator } => {
            lemma_push(machine, FrameView::Unary { operator });
            lemma_push(machine.push(FrameView::Unary { operator }), FrameView::Evaluate { expression: *expression });
        },
        ExpressionView::Binary { left, operator, right } => {
            lemma_push(machine, FrameView::BinaryRight { operator, right: *right });
            lemma_push(
                machine.push(FrameView::BinaryRight { operator, right: *right }),
                FrameView::Evaluate { expression: *left },
            );
        },
        ExpressionView::Logical { left, operator, right } => {
            lemma_push(machine, FrameView::LogicalRight { operator, right: *right });
            lemma_push(
                machine.push(FrameView::LogicalRight { operator, right: *right }),
                FrameView::Evaluate { expression: *left },
            );
        },
        ExpressionView::Variable { name } => {
            lemma_look_up_variable(machine, name);
            match machine.look_up_variable(name) {
                Ok(value) => {},
                Err(error) => {
                    lemma_fails(machine, error);
                },
            }
        },
        ExpressionView::Assign { name, value } => {
            lemma_push(machine, FrameView::Assign { name });
            lemma_push(machine.push(FrameView::Assign { name }), FrameView::Evaluate { expression: *value });
        },
        ExpressionView::Call { callee, paren, arguments } => {
            lemma_push(machine, FrameView::Callee { paren, arguments });
            lemma_push(
                machine.push(FrameView::Callee { paren, arguments }),
                FrameView::Evaluate { expression: *callee },
            );
        },
        ExpressionView::Get { object, name } => {
            lemma_push(machine, FrameView::GetProperty { name });
            lemma_push(machine.push(FrameView::GetProperty { name }), FrameView::Evaluate { expression: *object });
        },
        ExpressionView::SetField { object, name, value } => {
            lemma_push(machine, FrameView::SetObject { name, value: *value });
            lemma_push(
                machine.push(FrameView::SetObject { name, value: *value }),
                FrameView::Evaluate { expression: *object },
            );
        },
        ExpressionView::This { keyword } => {
            lemma_look_up_variable(machine, keyword);
            match machine.look_up_variable(keyword) {
                Ok(value) => {},
                Err(error) => {
                    lemma_fails(machine, error);
                },
            }
        },
        ExpressionView::Super { keyword, method } => {
            lemma_visit_super(machine, keyword, method);
        },
    }
}

proof fn lemma_visit_block(machine: InterpreterView, statements: Seq<StatementView>)
    requires
        machine.sound(),
        machine.roomy(),
    ensures
        machine.visit_block(statements).0.follows(machine),
{
    let environment = EnvironmentView { values: Map::empty(), enclosing: Some(machine.environment) };
    lemma_with_environment_keeps_sound(machine.heap, environment);
    let heap = machine.heap.with_environment(environment);
    lemma_with_heap(machine, heap);
    let entered = InterpreterView { heap, environment: machine.heap.environments.len() as usize, ..machine };
    lemma_push(entered, FrameView::Restore { environment: machine.environment });
    lemma_push(
        entered.push(FrameView::Restore { environment: machine.environment }),
        FrameView::Sequence { statements, next: 0 },
    );
}

proof fn lemma_visit_var(machine: InterpreterView, name: TokenView, value: ObjectView)
    requires
        machine.sound(),
        value.fits(machine.heap.sizes()),
    ensures
        machine.visit_var(name, value).0.follows(machine),
{
    lemma_define_keeps_sound(machine.heap, machine.environment, name.lexeme, value);
    lemma_with_heap(machine, machine.heap.define(machine.environment, name.lexeme, value));
}

proof fn lemma_visit_function(machine: InterpreterView, declaration: FunctionStmtView)
    requires
        machine.sound(),
    ensures
        machine.visit_function(declaration).0.follows(machine),
{
    let function = ObjectView::Callee(
        FuncView { decl: declaration, closure: machine.environment, is_initializer: false },
    );
    lemma_define_keeps_sound(machine.heap, machine.environment, declaration.name.lexeme, function);
    lemma_with_heap(machine, machine.heap.define(machine.environment, declaration.name.lexeme, function));
}

/// The methods of a class fit the heap that holds their environment.
proof fn lemma_class_methods_fit(methods: Seq<FunctionStmtView>, closure: usize, count: nat, sizes: Sizes)
    requires
        closure < sizes.environments,
    ensures
        methods_fit(class_methods(methods, closure, count), sizes),
    decreases count,
{
    if !(count == 0 || count > methods.len()) {
        lemma_class_methods_fit(methods, closure, (count - 1) as nat, sizes);
    }
}

/// The variables of a call fit the heap that the arguments fit.
proof fn lemma_bound_parameters_fit(
    parameters: Seq<TokenView>,
    arguments: Seq<ObjectView>,
    count: nat,
    sizes: Sizes,
)
    requires
        all_fit(arguments, sizes),
    ensures
        values_fit(bound_parameters(parameters, arguments, count), sizes),
    decreases count,
{
    if !(count == 0 || count > parameters.len() || count > arguments.len()) {
        lemma_bound_parameters_fit(parameters, arguments, (count - 1) as nat, sizes);
        assert(arguments[count - 1].fits(sizes));
    }
}

proof fn lemma_visit_class(machine: InterpreterView, declaration: ClassStmtView)
    requires
        machine.sound(),
        machine.roomy(),
    ensures
        machine.visit_class(declaration).0.follows(machine),
{
    match declaration.superclass {
        Some(name) => {
            lemma_look_up_variable(machine, name);
        },
        None => {},
    }
    match machine.superclass_of(declaration) {
        Err(error) => {
            lemma_fails(machine, error);
        },
        Ok(superclass) => {
            lemma_define_keeps_sound(machine.heap, machine.environment, declaration.name.lexeme, ObjectView::Nil);
            let declared = machine.heap.define(machine.environment, declaration.name.lexeme, ObjectView::Nil);
            let (scoped, closure) = match superclass {
                Some(class) => {
                    let scope = EnvironmentView {
                        values: Map::empty().insert(keyword_super(), ObjectView::Class(class)),
                        enclosing: Some(machine.environment),
                    };
                    lemma_with_environment_keeps_sound(declared, scope);
                    (declared.with_environment(scope), declared.environments.len() as usize)
                },
                None => (declared, machine.environment),
            };
            lemma_class_methods_fit(declaration.methods, closure, declaration.methods.len(), scoped.sizes());
            let class = MetaClassView {
                name: declaration.name.lexeme,
                superclass,
                methods: class_methods(declaration.methods, closure, declaration.methods.len()),
            };
            lemma_with_class_keeps_sound(scoped, class);
            let made = scoped.with_class(class);
            lemma_with_heap(machine, made);
            let value = ObjectView::Class(scoped.classes.len() as usize);
            lemma_assign_keeps_sound(made, machine.environment, declaration.name, value);
            match made.assign(machine.environment, declaration.name, value) {
                Err(error) => {
                    lemma_fails(InterpreterView { heap: made, ..machine }, error);
                },
                Ok(heap) => {
                    lemma_with_heap(machine, heap);
                },
            }
        },
    }
}

proof fn lemma_returned(machine: InterpreterView, closure: usize, is_initializer: bool, value: ObjectView)
    requires
        machine.heap.sound(),
        value.fits(machine.heap.sizes()),
    ensures
        machine.returned(closure, is_initializer, value) matches Ok(returned) ==> returned.fits(
            machine.heap.sizes(),
        ),
{
    lemma_get_at_fits(machine.heap, closure, 0, keyword_this());
}

proof fn lemma_visit_return(machine: InterpreterView, value: ObjectView)
    requires
        machine.sound(),
        value.fits(machine.heap.sizes()),
    ensures
        machine.visit_return(value).0.follows(machine),
    decreases machine.stack.len(),
{
    if machine.stack.len() == 0 {
        lemma_fails(machine, FoxErrorView::bug("Can't return from top-level code"@));
    } else {
        lemma_pop(machine);
        let rest = InterpreterView { stack: machine.stack.drop_last(), ..machine };
        match machine.stack.last() {
            FrameView::Return { closure, is_initializer, restore } => {
                lemma_returned(machine, closure, is_initializer, value);
                let left = InterpreterView { environment: restore, ..rest };
                match machine.returned(closure, is_initializer, value) {
                    Ok(returned) => {},
                    Err(error) => {
                        lemma_fails(left, error);
                    },
                }
            },
            FrameView::Restore { environment } => {
                lemma_visit_return(InterpreterView { environment, ..rest }, value);
            },
            _ => {
                lemma_visit_return(rest, value);
            },
        }
    }
}

proof fn lemma_execute(machine: InterpreterView, statement: StatementView)
    requires
        machine.sound(),
        machine.roomy(),
        machine.value is None,
    ensures
        machine.execute(statement).0.follows(machine),
{
    match statement {
        StatementView::Expression { expression } => {
            lemma_push(machine, FrameView::Discard);
            lemma_push(machine.push(FrameView::Discard), FrameView::Evaluate { expression });
        },
        StatementView::Print { expression } => {
            lemma_push(machine, FrameView::PrintValue);
            lemma_push(machine.push(FrameView::PrintValue), FrameView::Evaluate { expression });
        },
        StatementView::Var { name, initializer } => match initializer {
            Some(expression) => {
                lemma_push(machine, FrameView::Define { name });
                lemma_push(machine.push(FrameView::Define { name }), FrameView::Evaluate { expression });
            },
            None => {
                lemma_visit_var(machine, name, ObjectView::Nil);
            },
        },
        StatementView::Block { statements } => {
            lemma_visit_block(machine, statements);
        },
        StatementView::If { condition, then_branch, else_branch } => {
            let frame = FrameView::Branch {
                then_branch: *then_branch,
                else_branch: match else_branch {
                    Some(branch) => Some(*branch),
                    None => None,
                },
            };
            lemma_push(machine, frame);
            lemma_push(machine.push(frame), FrameView::Evaluate { expression: condition });
        },
        StatementView::While { condition, body } => {
            lemma_push(machine, FrameView::Loop { condition, body: *body });
            lemma_push(
                machine.push(FrameView::Loop { condition, body: *body }),
                FrameView::Evaluate { expression: condition },
            );
        },
        StatementView::Function { declaration } => {
            lemma_visit_function(machine, declaration);
        },
        StatementView::Return { keyword, value } => match value {
            Some(expression) => {
                lemma_push(machine, FrameView::ReturnValue);
                lemma_push(machine.push(FrameView::ReturnValue), FrameView::Evaluate { expression });
            },
            None => {
                lemma_visit_return(machine, ObjectView::Nil);
            },
        },
        StatementView::Class { declaration } => {
            lemma_visit_class(machine, declaration);
        },
    }
}

proof fn lemma_func_execute(machine: InterpreterView, function: FuncView, arguments: Seq<ObjectView>)
    requires
        machine.sound(),
        machine.heap.environments.len() < usize::MAX,
        function.fits(machine.heap.sizes()),
        all_fit(arguments, machine.heap.sizes()),
    ensures
        machine.func_execute(function, arguments).0.sound(),
        machine.func_execute(function, arguments).0.locals == machine.locals,
        machine.func_execute(function, arguments).0.heap.sizes() == (Sizes {
            environments: machine.heap.environments.len() + 1,
            ..machine.heap.sizes()
        }),
{
    lemma_bound_parameters_fit(function.decl.params, arguments, function.decl.params.len(), machine.heap.sizes());
    let environment = EnvironmentView {
        values: bound_parameters(function.decl.params, arguments, function.decl.params.len()),
        enclosing: Some(function.closure),
    };
    lemma_with_environment_keeps_sound(machine.heap, environment);
    let heap = machine.heap.with_environment(environment);
    lemma_with_heap(machine, heap);
    let entered = InterpreterView { heap, environment: machine.heap.environments.len() as usize, ..machine };
    let boundary = FrameView::Return {
        closure: function.closure,
        is_initializer: function.is_initializer,
        restore: machine.environment,
    };
    lemma_push(entered, boundary);
    lemma_push(entered.push(boundary), FrameView::Sequence { statements: function.decl.body, next: 0 });
}

proof fn lemma_visit_call(
    machine: InterpreterView,
    paren: TokenView,
    callee: ObjectView,
    arguments: Seq<ObjectView>,
)
    requires
        machine.sound(),
        machine.roomy(),
        machine.value is None,
        callee.fits(machine.heap.sizes()),
        all_fit(arguments, machine.heap.sizes()),
    ensures
        machine.visit_call(paren, callee, arguments).0.follows(machine),
{
    match callee {
        ObjectView::BuiltinCallee(function) => {
            match InterpreterView::func_arity_check(paren, function.arity as nat, arguments.len()) {
                Some(error) => {
                    lemma_fails(machine, error);
                },
                None => {},
            }
        },
        ObjectView::Callee(function) => {
            match InterpreterView::func_arity_check(paren, function.arity(), arguments.len()) {
                Some(error) => {
                    lemma_fails(machine, error);
                },
                None => {
                    lemma_func_execute(machine, function, arguments);
                },
            }
        },
        ObjectView::Class(class) => {
            match InterpreterView::func_arity_check(paren, machine.heap.class_arity(class), arguments.len()) {
                Some(error) => {
                    lemma_fails(machine, error);
                },
                None => {
                    lemma_constructor_keeps_sound(machine.heap, class);
                    let made = machine.heap.constructor(class);
                    lemma_with_heap(machine, made.0);
                    let ready = InterpreterView { heap: made.0, ..machine };
                    match made.2 {
                        Some(initializer) => {
                            assert(all_fit(arguments, made.0.sizes())) by {
                                assert forall|i: int| 0 <= i < arguments.len() implies (#[trigger] arguments[i]).fits(
                                    made.0.sizes(),
                                ) by {
                                    assert(arguments[i].fits(machine.heap.sizes()));
                                }
                            }
                            lemma_func_execute(ready, initializer, arguments);
                        },
                        None => {},
                    }
                },
            }
        },
        _ => {
            lemma_fails(machine, FoxErrorView::runtime(Some(paren), "Can only call functions and classes"@));
        },
    }
}

proof fn lemma_next_argument(
    machine: InterpreterView,
    paren: TokenView,
    arguments: Seq<ExpressionView>,
    callee: ObjectView,
    values: Seq<ObjectView>,
)
    requires
        machine.sound(),
        machine.roomy(),
        machine.value is None,
        callee.fits(machine.heap.sizes()),
        all_fit(values, machine.heap.sizes()),
    ensures
        machine.next_argument(paren, arguments, callee, values).0.follows(machine),
{
    if values.len() < arguments.len() {
        let frame = FrameView::Argument { paren, arguments, callee, values };
        lemma_push(machine, frame);
        lemma_push(machine.push(frame), FrameView::Evaluate { expression: arguments[values.len() as int] });
    } else {
        lemma_visit_call(machine, paren, callee, values);
    }
}

proof fn lemma_visit_assign(machine: InterpreterView, name: TokenView, value: ObjectView)
    requires
        machine.sound(),
        machine.value is None,
        value.fits(machine.heap.sizes()),
    ensures
        machine.visit_assign(name, value).0.follows(machine),
{
    lemma_assign_keeps_sound(machine.heap, machine.globals, name, value);
    if machine.locals.contains_key(key_of(name)) {
        lemma_assign_at_keeps_sound(machine.heap, machine.environment, machine.locals[key_of(name)], name.lexeme, value);
    }
    let assigned = if machine.locals.contains_key(key_of(name)) {
        machine.heap.assign_at(machine.environment, machine.locals[key_of(name)], name.lexeme, value)
    } else {
        machine.heap.assign(machine.globals, name, value)
    };
    match assigned {
        Ok(heap) => {
            lemma_with_heap(machine, heap);
        },
        Err(error) => {
            lemma_fails(machine, error);
        },
    }
}

proof fn lemma_visit_get(machine: InterpreterView, name: TokenView, object: ObjectView)
    requires
        machine.sound(),
        machine.roomy(),
        machine.value is None,
    ensures
        machine.visit_get(name, object).0.follows(machine),
{
    match object {
        ObjectView::Instance(instance) => {
            lemma_property_keeps_sound(machine.heap, instance, name);
            match machine.heap.property(instance, name) {
                Ok((heap, value)) => {
                    lemma_with_heap(machine, heap);
                },
                Err(error) => {
                    lemma_fails(machine, error);
                },
            }
        },
        _ => {
            lemma_fails(machine, FoxErrorView::runtime(Some(name), "Only instances have properties"@));
        },
    }
}

proof fn lemma_start(machine: InterpreterView, frame: FrameView)
    requires
        machine.sound(),
        machine.roomy(),
        machine.value is None,
        frame.fits(machine.heap.sizes()),
    ensures
        machine.start(frame).0.follows(machine),
{
    match frame {
        FrameView::Sequence { statements, next } => {
            if next < statements.len() {
                let rest = FrameView::Sequence { statements, next: (next + 1) as usize };
                lemma_push(machine, rest);
                lemma_push(machine.push(rest), FrameView::Execute { statement: statements[next as int] });
            }
        },
        FrameView::Restore { environment } => {},
        FrameView::Return { closure, is_initializer, restore } => {
            lemma_returned(machine, closure, is_initializer, ObjectView::Nil);
            let left = InterpreterView { environment: restore, ..machine };
            match machine.returned(closure, is_initializer, ObjectView::Nil) {
                Ok(returned) => {},
                Err(error) => {
                    lemma_fails(left, error);
                },
            }
        },
        FrameView::Execute { statement } => {
            lemma_execute(machine, statement);
        },
        FrameView::Evaluate { expression } => {
            lemma_evaluate(machine, expression);
        },
        _ => {
            lemma_fails(machine, FoxErrorView::bug("No value to go on with"@));
        },
    }
}

proof fn lemma_visit_binary(machine: InterpreterView, operator: TokenView, left: ObjectView, right: ObjectView)
    requires
        machine.sound(),
        machine.value is None,
    ensures
        machine.visit_binary(operator, left, right).0.follows(machine),
{
    lemma_fails(machine, FoxErrorView::token(crate::error::ErrorKindView::OperandMustBeNumber, Some(operator)));
    lemma_fails(machine, FoxErrorView::runtime(Some(operator), "Type mismatch"@));
}

proof fn lemma_apply(machine: InterpreterView, frame: FrameView, value: ObjectView)
    requires
        machine.sound(),
        machine.roomy(),
        machine.value is None,
        frame.fits(machine.heap.sizes()),
        value.fits(machine.heap.sizes()),
    ensures
        machine.apply(frame, value).0.follows(machine),
{
    match frame {
        FrameView::Discard => {},
        FrameView::PrintValue => {},
        FrameView::Define { name } => {
            lemma_visit_var(machine, name, value);
        },
        FrameView::Branch { then_branch, else_branch } => {
            lemma_push(machine, FrameView::Execute { statement: then_branch });
            match else_branch {
                Some(branch) => {
                    lemma_push(machine, FrameView::Execute { statement: branch });
                },
                None => {},
            }
        },
        FrameView::Loop { condition, body } => {
            let again = FrameView::Loop { condition, body };
            lemma_push(machine, again);
            lemma_push(machine.push(again), FrameView::Evaluate { expression: condition });
            lemma_push(
                machine.push(again).push(FrameView::Evaluate { expression: condition }),
                FrameView::Execute { statement: body },
            );
        },
        FrameView::ReturnValue => {
            lemma_visit_return(machine, value);
        },
        FrameView::Unary { operator } => {
            lemma_fails(
                machine,
                FoxErrorView::token(crate::error::ErrorKindView::OperandMustBeNumber, Some(operator)),
            );
            lemma_fails(machine, FoxErrorView::bug("Unknown unary operator"@));
        },
        FrameView::BinaryRight { operator, right } => {
            let frame = FrameView::BinaryApply { operator, left: value };
            lemma_push(machine, frame);
            lemma_push(machine.push(frame), FrameView::Evaluate { expression: right });
        },
        FrameView::BinaryApply { operator, left } => {
            lemma_visit_binary(machine, operator, left, value);
        },
        FrameView::LogicalRight { operator, right } => {
            lemma_push(machine, FrameView::Evaluate { expression: right });
        },
        FrameView::Assign { name } => {
            lemma_visit_assign(machine, name, value);
        },
        FrameView::Callee { paren, arguments } => {
            lemma_next_argument(machine, paren, arguments, value, Seq::empty());
        },
        FrameView::Argument { paren, arguments, callee, values } => {
            assert(all_fit(values.push(value), machine.heap.sizes())) by {
                assert forall|i: int| 0 <= i < values.push(value).len() implies (#[trigger] values.push(value)[i]).fits(
                    machine.heap.sizes(),
                ) by {
                    if i < values.len() {
                        assert(values[i].fits(machine.heap.sizes()));
                    }
                }
            }
            lemma_next_argument(machine, paren, arguments, callee, values.push(value));
        },
        FrameView::GetProperty { name } => {
            lemma_visit_get(machine, name, value);
        },
        FrameView::SetObject { name, value: expression } => {
            lemma_fails(machine, FoxErrorView::runtime(Some(name), "Only instances have fields"@));
            match value {
                ObjectView::Instance(instance) => {
                    let frame = FrameView::SetValue { name, instance };
                    lemma_push(machine, frame);
                    lemma_push(machine.push(frame), FrameView::Evaluate { expression });
                },
                _ => {},
            }
        },
        FrameView::SetValue { name, instance } => {
            lemma_set_field_keeps_sound(machine.heap, instance, name.lexeme, value);
            lemma_with_heap(machine, machine.heap.set_field(instance, name.lexeme, value));
        },
        _ => {
            lemma_start(machine, frame);
        },
    }
}

/// No step of the machine makes a sound machine unsound: whatever the
/// program does, every place that the machine refers to exists, and every
/// chain of environments ends at the global environment.
pub proof fn lemma_step_keeps_sound(machine: InterpreterView)
    requires
        machine.sound(),
        machine.roomy(),
    ensures
        machine.step().0.follows(machine),
{
    if machine.stack.len() > 0 {
        lemma_pop(machine);
        let rest = InterpreterView {
            stack: machine.stack.drop_last(),
            value: None,
            waiting: crate::machine::Waiting::Nothing,
            ..machine
        };
        assert(rest.sound()) by {
            assert(rest.stack == (InterpreterView { stack: machine.stack.drop_last(), ..machine }).stack);
        }
        match machine.value {
            Some(value) => {
                lemma_apply(rest, machine.stack.last(), value);
            },
            None => {
                lemma_start(rest, machine.stack.last());
            },
        }
    }
}

/// The reply of the host makes no sound machine unsound.
pub proof fn lemma_resume_keeps_sound(machine: InterpreterView, reply: Reply)
    requires
        machine.sound(),
    ensures
        machine.deliver(reply) matches Ok(delivered) ==> delivered.follows(machine),
        machine.deliver(reply) matches Err(error) ==> machine.fails(error).0.follows(machine),
{
    match machine.deliver(reply) {
        Ok(delivered) => {},
        Err(error) => {
            lemma_fails(machine, error);
        },
    }
}

/// The machine that is made for a program is sound.
pub proof fn lemma_new_machine_is_sound(statements: Seq<StatementView>, locals: Map<usize, usize>)
    ensures
        (InterpreterView { locals, ..InterpreterView::new() }).interpret(statements).sound(),
{
    let machine = InterpreterView { locals, ..InterpreterView::new() };
    assert(machine.heap.environments[0].sound(0, machine.heap.sizes()));
    assert(machine.sound());
    lemma_push(machine, FrameView::Sequence { statements, next: 0 });
}

impl InterpreterView {
    /// Whether the heap has room for what so many steps can make.
    pub open spec fn has_room_for(self, steps: nat) -> bool {
        &&& self.heap.environments.len() + 2 * steps <= usize::MAX
        &&& self.heap.instances.len() + steps <= usize::MAX
        &&& self.heap.classes.len() + steps <= usize::MAX
    }
}

/// No run of the machine makes a sound machine unsound, as long as the
/// heap has room for what the run can make.
pub proof fn lemma_run_keeps_sound(machine: InterpreterView, budget: nat)
    requires
        machine.sound(),
        machine.has_room_for(budget),
    ensures
        machine.run(budget).0.sound(),
        machine.run(budget).0.locals == machine.locals,
        machine.run(budget).0.heap.sizes().holds(machine.heap.sizes()),
    decreases budget,
{
    if budget > 0 {
        lemma_step_keeps_sound(machine);
        let next = machine.step();
        if next.1 is Continue {
            lemma_run_keeps_sound(next.0, (budget - 1) as nat);
        }
    }
}

/// The machine that is ready to run a program is sound.
pub proof fn lemma_started_machine_is_sound(statements: Seq<StatementView>)
    ensures
        crate::fox::started(statements) matches Ok(machine) ==> machine.sound(),
{
    match crate::fox::started(statements) {
        Ok(machine) => {
            lemma_new_machine_is_sound(statements, machine.locals);
        },
        Err(_) => {},
    }
}

/// In a sound machine a variable that is declared is there: it is read in
/// the current environment, at the distance zero, with its value.
pub proof fn lemma_declared_variable_is_there(machine: InterpreterView, name: TokenView, value: ObjectView)
    requires
        machine.sound(),
    ensures
        machine.visit_var(name, value).0.heap.get_at(machine.environment, 0, name.lexeme) == Ok::<
            ObjectView,
            FoxErrorView,
        >(value),
{
}

/// In a sound heap the walk along a chain of environments is never cut
/// short: the environment that binds a name for another one is the
/// nearest one on the whole chain up to the globals.
pub proof fn lemma_owner_walks_the_whole_chain(heap: HeapView, environment: usize, name: Seq<char>)
    requires
        heap.sound(),
        environment < heap.environments.len(),
        !heap.environments[environment as int].values.contains_key(name),
    ensures
        heap.owner(environment, name) == (match heap.environments[environment as int].enclosing {
            Some(outer) => heap.owner(outer, name),
            None => None,
        }),
        heap.environments[environment as int].enclosing is None ==> environment == 0,
{
    assert(heap.environments[environment as int].sound(environment as int, heap.sizes()));
}

} // verus!
