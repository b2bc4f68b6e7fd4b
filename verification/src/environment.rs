//! Environments: the scopes of a running program, chained from the
//! innermost to the global one.
use vstd::prelude::*;
use crate::error::{ErrorKind, FoxError, FoxErrorView, FoxResult};
use crate::heap::{Heap, HeapView};
use crate::object::{Object, ObjectView};
use crate::table::Table;
use crate::token::Token;

verus! {

/// A place on the heap where an environment lives. Whoever holds it shares
/// the environment with everyone else who does.
pub type SharedEnvironmentPtr = usize;

/// A scope: the variables declared in it, and the scope around it.
pub struct Environment<'a> {
    pub values: Table<Object<'a>>,
    pub enclosing: Option<SharedEnvironmentPtr>,
}

/// The mathematical model of an [`Environment`].
pub struct EnvironmentView {
    pub values: Map<Seq<char>, ObjectView>,
    pub enclosing: Option<usize>,
}

impl<'a> View for Environment<'a> {
    type V = EnvironmentView;

    open spec fn view(&self) -> EnvironmentView {
        EnvironmentView { values: self.values@, enclosing: self.enclosing }
    }
}

impl<'a> Environment<'a> {
    /// An empty environment that nothing encloses.
    pub fn new() -> (environment: Self)
        ensures
            environment@ == (EnvironmentView { values: Map::empty(), enclosing: None }),
    {
        Self::with(None)
    }

    /// An empty environment inside the given one.
    pub fn with(enclosing: Option<SharedEnvironmentPtr>) -> (environment: Self)
        ensures
            environment@ == (EnvironmentView { values: Map::empty(), enclosing }),
    {
        Self { values: Table::new(), enclosing }
    }

    /// Moves the environment to the heap, where it can be shared.
    pub fn shared_ptr(self, heap: &mut Heap<'a>) -> (place: SharedEnvironmentPtr)
        ensures
            final(heap)@ == old(heap)@.with_environment(self@),
            place == old(heap)@.environments.len(),
    {
        heap.add_environment(self)
    }

    /// Binds the name in this environment, whether or not it was bound.
    pub fn define(&mut self, name: &str, object: Object<'a>)
        ensures
            final(self)@ == (EnvironmentView { values: old(self)@.values.insert(name@, object@), ..old(self)@ }),
    {
        self.values.insert(String::from_str(name), object);
    }

    /// Binds the name in an environment of the heap.
    pub fn define_in(heap: &mut Heap<'a>, environment: SharedEnvironmentPtr, name: &str, object: Object<'a>)
        ensures
            final(heap)@ == old(heap)@.define(environment, name@, object@),
    {
        if environment < heap.environments.len() {
            heap.environments[environment].define(name, object);
            assert(heap@.environments =~= old(heap)@.define(environment, name@, object@).environments);
            assert(heap@.instances =~= old(heap)@.instances);
            assert(heap@.classes =~= old(heap)@.classes);
        }
    }

    /// The nearest environment that binds the name, from the given one
    /// outwards.
    fn owner(heap: &Heap<'a>, environment: SharedEnvironmentPtr, name: &str) -> (found: Option<SharedEnvironmentPtr>)
        ensures
            found == heap@.owner(environment, name@),
            found matches Some(owner) ==> owner < heap.environments@.len() && heap.environments@[owner as int].values@.contains_key(
                name@,
            ),
    {
        let mut at = environment;
        loop
            invariant
                heap@.owner(at, name@) == heap@.owner(environment, name@),
            decreases at,
        {
            if at >= heap.environments.len() {
                return None;
            }
            if heap.environments[at].values.contains_key(name) {
                return Some(at);
            }
            match heap.environments[at].enclosing {
                Some(outer) => {
                    if outer < at {
                        at = outer;
                    } else {
                        return None;
                    }
                },
                None => {
                    return None;
                },
            }
        }
    }

    /// Assigns to a variable: to the name in the nearest environment that
    /// binds it.
    pub fn assign(heap: &mut Heap<'a>, environment: SharedEnvironmentPtr, name: &Token, value: Object<'a>) -> (result:
        FoxResult<()>)
        ensures
            match result {
                Ok(_) => old(heap)@.assign(environment, name@, value@) == Ok::<HeapView, FoxErrorView>(final(heap)@),
                Err(error) => old(heap)@.assign(environment, name@, value@) == Err::<HeapView, FoxErrorView>(error@)
                    && final(heap)@ == old(heap)@,
            },
    {
        match Self::owner(heap, environment, name.lexeme.as_str()) {
            Some(owner) => {
                Self::define_in(heap, owner, name.lexeme.as_str(), value);
                Ok(())
            },
            None => Err(FoxError::token(ErrorKind::UndefinedVariable(name.lexeme.clone()), Some(name.clone()))),
        }
    }

    /// Reads a variable: the name in the nearest environment that binds it.
    pub fn get(heap: &Heap<'a>, environment: SharedEnvironmentPtr, token: &Token) -> (result: FoxResult<Object<'a>>)
        ensures
            match result {
                Ok(value) => heap@.get(environment, token@) == Ok::<ObjectView, FoxErrorView>(value@),
                Err(error) => heap@.get(environment, token@) == Err::<ObjectView, FoxErrorView>(error@),
            },
    {
        match Self::owner(heap, environment, token.lexeme.as_str()) {
            Some(owner) => {
                match heap.environments[owner].values.get(token.lexeme.as_str()) {
                    Some(value) => Ok(value.clone()),
                    None => Err(
                        FoxError::token(ErrorKind::UndefinedVariable(token.lexeme.clone()), Some(token.clone())),
                    ),
                }
            },
            None => Err(FoxError::token(ErrorKind::UndefinedVariable(token.lexeme.clone()), Some(token.clone()))),
        }
    }

    /// The environment exactly `distance` hops away: the given one itself
    /// for a distance of zero.
    fn ancestor(heap: &Heap<'a>, environment: SharedEnvironmentPtr, distance: usize) -> (result: FoxResult<
        SharedEnvironmentPtr,
    >)
        ensures
            match result {
                Ok(ancestor) => heap@.ancestor(environment, distance) == Ok::<usize, FoxErrorView>(ancestor),
                Err(error) => heap@.ancestor(environment, distance) == Err::<usize, FoxErrorView>(error@),
            },
    {
        if distance == 0 {
            Ok(environment)
        } else {
            Self::traverse_enclosing(heap, environment, distance)
        }
    }

    /// Reads the name in the environment exactly `distance` hops away.
    pub fn get_at(heap: &Heap<'a>, environment: SharedEnvironmentPtr, distance: usize, name: &str) -> (result:
        FoxResult<Object<'a>>)
        ensures
            match result {
                Ok(value) => heap@.get_at(environment, distance, name@) == Ok::<ObjectView, FoxErrorView>(value@),
                Err(error) => heap@.get_at(environment, distance, name@) == Err::<ObjectView, FoxErrorView>(error@),
            },
    {
        let ancestor = Self::ancestor(heap, environment, distance)?;
        if ancestor < heap.environments.len() {
            match heap.environments[ancestor].values.get(name) {
                Some(value) => {
                    return Ok(value.clone());
                },
                None => {},
            }
        }
        Err(FoxError::resolver(None, "Object not found"))
    }

    /// Binds the name in the environment exactly `distance` hops away.
    pub fn assign_at(
        heap: &mut Heap<'a>,
        environment: SharedEnvironmentPtr,
        distance: usize,
        name: &Token,
        value: Object<'a>,
    ) -> (result: FoxResult<()>)
        ensures
            match result {
                Ok(_) => old(heap)@.assign_at(environment, distance, name@.lexeme, value@) == Ok::<
                    HeapView,
                    FoxErrorView,
                >(final(heap)@),
                Err(error) => old(heap)@.assign_at(environment, distance, name@.lexeme, value@) == Err::<
                    HeapView,
                    FoxErrorView,
                >(error@) && final(heap)@ == old(heap)@,
            },
    {
        let ancestor = Self::ancestor(heap, environment, distance)?;
        if ancestor < heap.environments.len() {
            Self::define_in(heap, ancestor, name.lexeme.as_str(), value);
            Ok(())
        } else {
            Err(FoxError::resolver(None, "Invalid depth: Environment at specified distance not found"))
        }
    }

    /// The environment that encloses the given one, if there is one.
    fn enclosing_of(heap: &Heap<'a>, environment: SharedEnvironmentPtr) -> (outer: Option<SharedEnvironmentPtr>)
        ensures
            outer == heap@.enclosing(environment),
    {
        if environment < heap.environments.len() {
            heap.environments[environment].enclosing
        } else {
            None
        }
    }

    /// The ancestor exactly `depth` hops away, for a depth that is not
    /// zero.
    fn traverse_enclosing(heap: &Heap<'a>, environment: SharedEnvironmentPtr, depth: usize) -> (result: FoxResult<
        SharedEnvironmentPtr,
    >)
        ensures
            match result {
                Ok(ancestor) => heap@.traverse_enclosing(environment, depth) == Ok::<usize, FoxErrorView>(ancestor),
                Err(error) => heap@.traverse_enclosing(environment, depth) == Err::<usize, FoxErrorView>(error@),
            },
    {
        if depth == 0 {
            let err = FoxError::resolver(None, "Zero depth isn't applicable for ancestor environments");
            return Err(err);
        }
        let mut ptr = Self::enclosing_of(heap, environment);
        let mut hops: usize = 1;
        while hops < depth
            invariant
                1 <= hops <= depth,
                heap@.walk(ptr, (depth - hops) as nat) == heap@.walk(
                    heap@.enclosing(environment),
                    (depth - 1) as nat,
                ),
            decreases depth - hops,
        {
            let Some(current) = ptr else {
                let err = FoxError::resolver(None, "Invalid depth: Ancestor environment not found");
                return Err(err);
            };
            ptr = Self::enclosing_of(heap, current);
            hops += 1;
        }
        let Some(env) = ptr else {
            let err = FoxError::resolver(None, "Invalid depth: Environment at specified distance not found");
            return Err(err);
        };
        Ok(env)
    }
}

} // verus!
