//! Classes and their instances.
use vstd::prelude::*;
use crate::environment::Environment;
use crate::error::{FoxError, FoxErrorView, FoxResult};
use crate::func::{Func, FuncView};
use crate::heap::{Heap, HeapView};
use crate::object::{Object, ObjectView};
use crate::table::Table;
use crate::text::joined;
use crate::token::Token;

verus! {

/// The name of the method that initializes a new instance.
pub const INITIALIZER_NAME: &'static str = "init";

/// The name under which a method finds the instance it was called on.
pub const KEYWORD_THIS: &'static str = "this";

/// The name under which a method finds the superclass of its class.
pub const KEYWORD_SUPER: &'static str = "super";

/// A class at run time: its name, the class it extends, and its methods.
/// It does not change once it is made.
pub struct MetaClass<'a> {
    pub name: String,
    pub superclass: Option<usize>,
    pub methods: Table<Func<'a>>,
}

/// The mathematical model of a [`MetaClass`].
pub struct MetaClassView {
    pub name: Seq<char>,
    pub superclass: Option<usize>,
    pub methods: Map<Seq<char>, FuncView>,
}

impl<'a> View for MetaClass<'a> {
    type V = MetaClassView;

    open spec fn view(&self) -> MetaClassView {
        MetaClassView { name: self.name@, superclass: self.superclass, methods: self.methods@ }
    }
}

/// An instance of a class: its class, and its fields.
pub struct ClassInstance<'a> {
    pub meta_class_ref: usize,
    pub fields: Table<Object<'a>>,
}

/// The mathematical model of a [`ClassInstance`].
pub struct ClassInstanceView {
    pub meta_class_ref: usize,
    pub fields: Map<Seq<char>, ObjectView>,
}

impl<'a> View for ClassInstance<'a> {
    type V = ClassInstanceView;

    open spec fn view(&self) -> ClassInstanceView {
        ClassInstanceView { meta_class_ref: self.meta_class_ref, fields: self.fields@ }
    }
}

/// What a call of a class starts with: a new instance, and the initializer
/// bound to it, if the class has one.
pub struct Constructor<'a> {
    pub initializer: Option<Func<'a>>,
    pub instance: usize,
}

impl HeapView {
    /// The heap with a new instance of the class and, if the class has an
    /// initializer, with the environment that binds the initializer to the
    /// instance; then the place of the instance, and the bound initializer.
    pub open spec fn constructor(self, class: usize) -> (HeapView, usize, Option<FuncView>) {
        let instance = self.instances.len() as usize;
        let made = self.with_instance(ClassInstanceView { meta_class_ref: class, fields: Map::empty() });
        match self.find_method(class, crate::heap::initializer_name()) {
            Some(initializer) => {
                let bound = made.bind(initializer, instance);
                (bound.0, instance, Some(bound.1))
            },
            None => (made, instance, None),
        }
    }
}

impl<'a> Func<'a> {
    /// Binds a method to an instance: see [`HeapView::bind`].
    pub fn bind(&self, heap: &mut Heap<'a>, instance: usize) -> (bound: Func<'a>)
        ensures
            (final(heap)@, bound@) == old(heap)@.bind(self@, instance),
    {
        let mut env = Environment::with(Some(self.closure));
        env.define(KEYWORD_THIS, Object::Instance(instance));
        let closure = env.shared_ptr(heap);
        Func { decl: self.decl, closure, is_initializer: self.is_initializer }
    }
}

impl<'a> MetaClass<'a> {
    /// Makes an instance of a class of the heap, and binds the class's
    /// initializer to it.
    pub fn constructor(heap: &mut Heap<'a>, meta: usize) -> (constructor: Constructor<'a>)
        ensures
            old(heap)@.constructor(meta) == (
                final(heap)@,
                constructor.instance,
                match constructor.initializer {
                    Some(initializer) => Some(initializer@),
                    None => None,
                },
            ),
    {
        let found = Self::find_method(heap, meta, INITIALIZER_NAME);
        let instance = heap.add_instance(ClassInstance::new(meta));
        let initializer = match found {
            Some(init) => Some(init.bind(heap, instance)),
            None => None,
        };
        Constructor { initializer, instance }
    }

    pub fn new(name: &str, superclass: Option<usize>, methods: Table<Func<'a>>) -> (class: Self)
        ensures
            class@ == (MetaClassView { name: name@, superclass, methods: methods@ }),
    {
        Self { name: String::from_str(name), superclass, methods }
    }

    /// The number of arguments that a call of the class takes.
    pub fn arity(heap: &Heap<'a>, class: usize) -> (arity: usize)
        ensures
            arity == heap@.class_arity(class),
    {
        match Self::find_method(heap, class, INITIALIZER_NAME) {
            Some(method) => method.arity(),
            None => 0,
        }
    }

    /// The method of that name that a class of the heap has or inherits.
    pub fn find_method(heap: &Heap<'a>, class: usize, name: &str) -> (found: Option<Func<'a>>)
        ensures
            match found {
                Some(method) => heap@.find_method(class, name@) == Some(method@),
                None => heap@.find_method(class, name@) is None,
            },
    {
        let mut at = class;
        loop
            invariant
                heap@.find_method(at, name@) == heap@.find_method(class, name@),
            decreases at,
        {
            if at >= heap.classes.len() {
                return None;
            }
            match heap.classes[at].methods.get(name) {
                Some(method) => {
                    return Some(*method);
                },
                None => {},
            }
            match heap.classes[at].superclass {
                Some(superclass) => {
                    if superclass < at {
                        at = superclass;
                    } else {
                        return None;
                    }
                },
                None => {
                    return None;
                },
            }
        }
    }
}

impl<'a> ClassInstance<'a> {
    /// A new instance of the class, without fields.
    pub fn new(meta_class_ref: usize) -> (instance: Self)
        ensures
            instance@ == (ClassInstanceView { meta_class_ref, fields: Map::empty() }),
    {
        Self { meta_class_ref, fields: Table::new() }
    }

    /// Reads a property of an instance of the heap: a field, or else a
    /// method, which is bound to the instance.
    pub fn get(heap: &mut Heap<'a>, instance_ref: usize, name: &Token) -> (result: FoxResult<Object<'a>>)
        ensures
            match result {
                Ok(value) => old(heap)@.property(instance_ref, name@) == Ok::<(HeapView, ObjectView), FoxErrorView>(
                    (final(heap)@, value@),
                ),
                Err(error) => old(heap)@.property(instance_ref, name@) == Err::<
                    (HeapView, ObjectView),
                    FoxErrorView,
                >(error@) && final(heap)@ == old(heap)@,
            },
    {
        let lexeme = name.lexeme.as_str();
        if instance_ref < heap.instances.len() {
            match heap.instances[instance_ref].fields.get(lexeme) {
                Some(value) => {
                    return Ok(value.clone());
                },
                None => {},
            }
            match MetaClass::find_method(heap, heap.instances[instance_ref].meta_class_ref, lexeme) {
                Some(method) => {
                    return Ok(Object::Callee(method.bind(heap, instance_ref)));
                },
                None => {},
            }
        }
        let message = joined(joined("Undefined property '", lexeme).as_str(), "'");
        Err(FoxError::runtime(Some(name.clone()), message.as_str()))
    }

    /// Sets a field, whether or not the instance had it.
    pub fn set(&mut self, name: &Token, value: Object<'a>)
        ensures
            final(self)@ == (ClassInstanceView {
                fields: old(self)@.fields.insert(name@.lexeme, value@),
                ..old(self)@
            }),
    {
        self.fields.insert(name.lexeme.clone(), value);
    }

    /// Sets a field of an instance of the heap.
    pub fn set_in(heap: &mut Heap<'a>, instance: usize, name: &Token, value: Object<'a>)
        ensures
            final(heap)@ == old(heap)@.set_field(instance, name@.lexeme, value@),
    {
        if instance < heap.instances.len() {
            heap.instances[instance].set(name, value);
            assert(heap@.instances =~= old(heap)@.set_field(instance, name@.lexeme, value@).instances);
            assert(heap@.environments =~= old(heap)@.environments);
            assert(heap@.classes =~= old(heap)@.classes);
        }
    }
}

} // verus!
