//! The heap: every environment, instance and class of a running program.
//!
//! Environments, instances and classes are shared and outlive the code
//! that made them, so they live here and are named by their place. A place
//! is never reused. The interpreter makes an environment only inside one
//! that is there already, and a class only from a superclass that is there
//! already; a chain of environments or of classes is followed no further
//! than it leads to older places, so that every walk along it ends.
use vstd::prelude::*;
use crate::class::{ClassInstance, ClassInstanceView, MetaClass, MetaClassView};
use crate::environment::{Environment, EnvironmentView};
use crate::error::{ErrorKindView, FoxErrorView};
use crate::func::FuncView;
use crate::object::ObjectView;
use crate::token::TokenView;

verus! {

pub struct Heap<'a> {
    pub environments: Vec<Environment<'a>>,
    pub instances: Vec<ClassInstance<'a>>,
    pub classes: Vec<MetaClass<'a>>,
}

/// The mathematical model of a [`Heap`].
pub struct HeapView {
    pub environments: Seq<EnvironmentView>,
    pub instances: Seq<ClassInstanceView>,
    pub classes: Seq<MetaClassView>,
}

impl<'a> View for Heap<'a> {
    type V = HeapView;

    open spec fn view(&self) -> HeapView {
        HeapView {
            environments: Seq::new(self.environments@.len(), |i: int| self.environments@[i]@),
            instances: Seq::new(self.instances@.len(), |i: int| self.instances@[i]@),
            classes: Seq::new(self.classes@.len(), |i: int| self.classes@[i]@),
        }
    }
}

/// The name under which a method finds the instance it was called on.
pub open spec fn keyword_this() -> Seq<char> {
    "this"@
}

/// The name under which a method finds the superclass of its class.
pub open spec fn keyword_super() -> Seq<char> {
    "super"@
}

/// The name of the method that initializes a new instance.
pub open spec fn initializer_name() -> Seq<char> {
    "init"@
}

impl HeapView {
    /// The heap with one more environment, at the place `environments.len()`.
    pub open spec fn with_environment(self, environment: EnvironmentView) -> HeapView {
        HeapView { environments: self.environments.push(environment), ..self }
    }

    /// The heap with one more instance, at the place `instances.len()`.
    pub open spec fn with_instance(self, instance: ClassInstanceView) -> HeapView {
        HeapView { instances: self.instances.push(instance), ..self }
    }

    /// The heap with one more class, at the place `classes.len()`.
    pub open spec fn with_class(self, class: MetaClassView) -> HeapView {
        HeapView { classes: self.classes.push(class), ..self }
    }

    /// The heap after the name was bound to the value in one environment.
    /// There is nothing to bind in an environment that does not exist.
    pub open spec fn define(self, environment: usize, name: Seq<char>, value: ObjectView) -> HeapView {
        if environment < self.environments.len() {
            HeapView {
                environments: self.environments.update(
                    environment as int,
                    EnvironmentView {
                        values: self.environments[environment as int].values.insert(name, value),
                        ..self.environments[environment as int]
                    },
                ),
                ..self
            }
        } else {
            self
        }
    }

    /// The environment that encloses the given one, if there is one.
    pub open spec fn enclosing(self, environment: usize) -> Option<usize> {
        if environment < self.environments.len() {
            self.environments[environment as int].enclosing
        } else {
            None
        }
    }

    /// The nearest environment that binds the name, from the given one
    /// outwards.
    pub open spec fn owner(self, environment: usize, name: Seq<char>) -> Option<usize>
        decreases environment,
    {
        if environment >= self.environments.len() {
            None
        } else if self.environments[environment as int].values.contains_key(name) {
            Some(environment)
        } else {
            match self.environments[environment as int].enclosing {
                Some(outer) => if outer < environment {
                    self.owner(outer, name)
                } else {
                    None
                },
                None => None,
            }
        }
    }

    /// The value of a variable: what the nearest environment that binds the
    /// name binds it to. A name that no environment of the chain binds is
    /// an undefined variable.
    pub open spec fn get(self, environment: usize, token: TokenView) -> Result<ObjectView, FoxErrorView> {
        match self.owner(environment, token.lexeme) {
            Some(owner) => Ok(self.environments[owner as int].values[token.lexeme]),
            None => Err(FoxErrorView::token(ErrorKindView::UndefinedVariable(token.lexeme), Some(token))),
        }
    }

    /// The heap after an assignment to a variable: the nearest environment
    /// that binds the name binds it to the value. A name that no
    /// environment of the chain binds is an undefined variable.
    pub open spec fn assign(self, environment: usize, token: TokenView, value: ObjectView) -> Result<
        HeapView,
        FoxErrorView,
    > {
        match self.owner(environment, token.lexeme) {
            Some(owner) => Ok(self.define(owner, token.lexeme, value)),
            None => Err(FoxErrorView::token(ErrorKindView::UndefinedVariable(token.lexeme), Some(token))),
        }
    }

    /// Where `steps` more hops outwards lead from `from`, or an error if
    /// the chain ends before.
    pub open spec fn walk(self, from: Option<usize>, steps: nat) -> Result<Option<usize>, FoxErrorView>
        decreases steps,
    {
        if steps == 0 {
            Ok(from)
        } else {
            match from {
                None => Err(FoxErrorView::resolver(None, "Invalid depth: Ancestor environment not found"@)),
                Some(current) => self.walk(self.enclosing(current), (steps - 1) as nat),
            }
        }
    }

    /// The ancestor exactly `depth` hops away from the environment, for a
    /// depth that is not zero.
    pub open spec fn traverse_enclosing(self, environment: usize, depth: usize) -> Result<usize, FoxErrorView> {
        if depth == 0 {
            Err(FoxErrorView::resolver(None, "Zero depth isn't applicable for ancestor environments"@))
        } else {
            match self.walk(self.enclosing(environment), (depth - 1) as nat) {
                Err(error) => Err(error),
                Ok(None) => Err(
                    FoxErrorView::resolver(None, "Invalid depth: Environment at specified distance not found"@),
                ),
                Ok(Some(ancestor)) => Ok(ancestor),
            }
        }
    }

    /// The environment exactly `distance` hops away: the given one itself
    /// for a distance of zero.
    pub open spec fn ancestor(self, environment: usize, distance: usize) -> Result<usize, FoxErrorView> {
        if distance == 0 {
            Ok(environment)
        } else {
            self.traverse_enclosing(environment, distance)
        }
    }

    /// The value that the environment exactly `distance` hops away binds
    /// the name to.
    pub open spec fn get_at(self, environment: usize, distance: usize, name: Seq<char>) -> Result<
        ObjectView,
        FoxErrorView,
    > {
        match self.ancestor(environment, distance) {
            Err(error) => Err(error),
            Ok(ancestor) => if ancestor < self.environments.len() && self.environments[ancestor as int].values.contains_key(
                name,
            ) {
                Ok(self.environments[ancestor as int].values[name])
            } else {
                Err(FoxErrorView::resolver(None, "Object not found"@))
            },
        }
    }

    /// The heap after the environment exactly `distance` hops away has
    /// bound the name to the value.
    pub open spec fn assign_at(self, environment: usize, distance: usize, name: Seq<char>, value: ObjectView) -> Result<
        HeapView,
        FoxErrorView,
    > {
        match self.ancestor(environment, distance) {
            Err(error) => Err(error),
            Ok(ancestor) => if ancestor < self.environments.len() {
                Ok(self.define(ancestor, name, value))
            } else {
                Err(FoxErrorView::resolver(None, "Invalid depth: Environment at specified distance not found"@))
            },
        }
    }

    /// The method of that name that a class has or inherits: its own, or
    /// else that of the nearest superclass that has one.
    pub open spec fn find_method(self, class: usize, name: Seq<char>) -> Option<FuncView>
        decreases class,
    {
        if class >= self.classes.len() {
            None
        } else if self.classes[class as int].methods.contains_key(name) {
            Some(self.classes[class as int].methods[name])
        } else {
            match self.classes[class as int].superclass {
                Some(superclass) => if superclass < class {
                    self.find_method(superclass, name)
                } else {
                    None
                },
                None => None,
            }
        }
    }

    /// The number of arguments that a call of the class takes: as many as
    /// its initializer has parameters, and none if it has no initializer.
    pub open spec fn class_arity(self, class: usize) -> nat {
        match self.find_method(class, initializer_name()) {
            Some(initializer) => initializer.arity(),
            None => 0,
        }
    }

    /// A method bound to an instance: the same function in a new
    /// environment that binds `this` to the instance and is enclosed by the
    /// environment of the method. The result is the heap with that
    /// environment, and the bound method.
    pub open spec fn bind(self, method: FuncView, instance: usize) -> (HeapView, FuncView) {
        (
            self.with_environment(
                EnvironmentView {
                    values: Map::empty().insert(keyword_this(), ObjectView::Instance(instance)),
                    enclosing: Some(method.closure),
                },
            ),
            FuncView { closure: self.environments.len() as usize, ..method },
        )
    }

    /// The property of an instance: the field of that name, or else the
    /// method of that name, bound to the instance.
    pub open spec fn property(self, instance: usize, name: TokenView) -> Result<(HeapView, ObjectView), FoxErrorView> {
        if instance < self.instances.len() && self.instances[instance as int].fields.contains_key(name.lexeme) {
            Ok((self, self.instances[instance as int].fields[name.lexeme]))
        } else if instance < self.instances.len() && self.find_method(
            self.instances[instance as int].meta_class_ref,
            name.lexeme,
        ) is Some {
            let bound = self.bind(
                self.find_method(self.instances[instance as int].meta_class_ref, name.lexeme)->0,
                instance,
            );
            Ok((bound.0, ObjectView::Callee(bound.1)))
        } else {
            Err(FoxErrorView::runtime(Some(name), "Undefined property '"@ + name.lexeme + "'"@))
        }
    }

    /// The heap after a field of an instance was set. There is nothing to
    /// set in an instance that does not exist.
    pub open spec fn set_field(self, instance: usize, name: Seq<char>, value: ObjectView) -> HeapView {
        if instance < self.instances.len() {
            HeapView {
                instances: self.instances.update(
                    instance as int,
                    ClassInstanceView {
                        fields: self.instances[instance as int].fields.insert(name, value),
                        ..self.instances[instance as int]
                    },
                ),
                ..self
            }
        } else {
            self
        }
    }
}

impl<'a> Heap<'a> {
    pub fn new() -> (heap: Self)
        ensures
            heap@ == (HeapView { environments: Seq::empty(), instances: Seq::empty(), classes: Seq::empty() }),
    {
        let heap = Heap { environments: Vec::new(), instances: Vec::new(), classes: Vec::new() };
        assert(heap@.environments =~= Seq::empty());
        assert(heap@.instances =~= Seq::empty());
        assert(heap@.classes =~= Seq::empty());
        heap
    }

    /// Puts an environment on the heap and says where.
    pub fn add_environment(&mut self, environment: Environment<'a>) -> (place: usize)
        ensures
            final(self)@ == old(self)@.with_environment(environment@),
            place == old(self)@.environments.len(),
    {
        let place = self.environments.len();
        self.environments.push(environment);
        assert(self@.environments =~= old(self)@.environments.push(environment@));
        assert(self@.instances =~= old(self)@.instances);
        assert(self@.classes =~= old(self)@.classes);
        place
    }

    /// Puts an instance on the heap and says where.
    pub fn add_instance(&mut self, instance: ClassInstance<'a>) -> (place: usize)
        ensures
            final(self)@ == old(self)@.with_instance(instance@),
            place == old(self)@.instances.len(),
    {
        let place = self.instances.len();
        self.instances.push(instance);
        assert(self@.instances =~= old(self)@.instances.push(instance@));
        assert(self@.environments =~= old(self)@.environments);
        assert(self@.classes =~= old(self)@.classes);
        place
    }

    /// Puts a class on the heap and says where.
    pub fn add_class(&mut self, class: MetaClass<'a>) -> (place: usize)
        ensures
            final(self)@ == old(self)@.with_class(class@),
            place == old(self)@.classes.len(),
    {
        let place = self.classes.len();
        self.classes.push(class);
        assert(self@.classes =~= old(self)@.classes.push(class@));
        assert(self@.environments =~= old(self)@.environments);
        assert(self@.instances =~= old(self)@.instances);
        place
    }
}

/// A name that an environment has just bound is read there, at the
/// distance zero, with the value it was bound to.
pub proof fn lemma_define_then_get(heap: HeapView, environment: usize, name: Seq<char>, value: ObjectView)
    requires
        environment < heap.environments.len(),
    ensures
        heap.define(environment, name, value).get_at(environment, 0, name) == Ok::<ObjectView, FoxErrorView>(value),
{
}

/// Binding a name changes no other name of the environment, and nothing
/// in any other environment, instance or class.
pub proof fn lemma_define_keeps_the_rest(
    heap: HeapView,
    environment: usize,
    name: Seq<char>,
    value: ObjectView,
    other: usize,
    other_name: Seq<char>,
)
    requires
        other != environment || other_name != name,
    ensures
        heap.define(environment, name, value).get_at(other, 0, other_name) == heap.get_at(other, 0, other_name),
        heap.define(environment, name, value).instances == heap.instances,
        heap.define(environment, name, value).classes == heap.classes,
        heap.define(environment, name, value).environments.len() == heap.environments.len(),
{
}

/// A variable is read from the nearest environment that binds it: a
/// binding of the environment itself hides every binding further out.
pub proof fn lemma_get_reads_the_nearest(heap: HeapView, environment: usize, token: TokenView)
    requires
        environment < heap.environments.len(),
        heap.environments[environment as int].values.contains_key(token.lexeme),
    ensures
        heap.get(environment, token) == Ok::<ObjectView, FoxErrorView>(
            heap.environments[environment as int].values[token.lexeme],
        ),
{
}

/// An assignment to a name that no environment of the chain binds fails,
/// and so does reading it: nothing is defined by assigning.
pub proof fn lemma_undefined_variable(heap: HeapView, environment: usize, token: TokenView, value: ObjectView)
    requires
        heap.owner(environment, token.lexeme) is None,
    ensures
        heap.get(environment, token) == Err::<ObjectView, FoxErrorView>(
            FoxErrorView::token(ErrorKindView::UndefinedVariable(token.lexeme), Some(token)),
        ),
        heap.assign(environment, token, value) == Err::<HeapView, FoxErrorView>(
            FoxErrorView::token(ErrorKindView::UndefinedVariable(token.lexeme), Some(token)),
        ),
{
}

/// The distance zero is the environment itself, and a distance that is
/// not zero is so many hops along the chain of enclosing environments.
pub proof fn lemma_ancestor_hops(heap: HeapView, environment: usize, distance: usize)
    ensures
        heap.ancestor(environment, 0) == Ok::<usize, FoxErrorView>(environment),
        distance > 0 && heap.ancestor(environment, distance) is Ok ==> heap.walk(
            Some(environment),
            distance as nat,
        ) == Ok::<Option<usize>, FoxErrorView>(Some(heap.ancestor(environment, distance)->Ok_0)),
{
}

} // verus!
