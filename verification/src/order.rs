//! What holds of every state of the machine: the stack is in order.
//!
//! Some frames wait for the value of an expression, and some frames leave
//! a value behind when they are done. The stack is in order when every
//! frame that waits for a value lies right under a frame that leaves one,
//! and every frame that waits for none lies under a frame that leaves
//! none. The machine that is made for a program has its stack in order,
//! and no step of the machine brings a stack out of order. So every value
//! reaches the frame that waits for it: none is dropped, and no frame
//! waits in vain.
use vstd::prelude::*;
use crate::ast::{ExpressionView, StatementView};
use crate::machine::{FrameView, InterpreterView, Reply, Waiting};
use crate::object::ObjectView;
use crate::token::TokenView;

verus! {

impl FrameView {
    /// Whether the frame waits for a value.
    pub open spec fn takes_value(self) -> bool {
        !(self is Sequence || self is Restore || self is Return || self is Execute || self is Evaluate)
    }

    /// Whether the frame leaves a value to the frame under it when it is
    /// done: the frames of expressions do, and the frame of a call does;
    /// the frames of statements do not.
    pub open spec fn leaves_value(self) -> bool {
        self is Evaluate || self is Return || self is Unary || self is BinaryRight || self is BinaryApply
            || self is LogicalRight || self is Assign || self is Callee || self is Argument || self is GetProperty
            || self is SetObject || self is SetValue
    }
}

/// Whether a stack is in order: every frame gets from the frame above it
/// what it waits for.
pub open spec fn in_order(stack: Seq<FrameView>) -> bool {
    forall|i: int| 0 <= i < stack.len() - 1 ==> (#[trigger] stack[i]).takes_value() == stack[i + 1].leaves_value()
}

/// Whether a frame can be put on a stack that is in order.
pub open spec fn takes(stack: Seq<FrameView>, frame: FrameView) -> bool {
    stack.len() > 0 ==> stack.last().takes_value() == frame.leaves_value()
}

impl InterpreterView {
    /// Whether there is a value for the top frame: one that the machine
    /// holds, or one that the host is asked for.
    pub open spec fn has_value(self) -> bool {
        self.value is Some || self.waiting != Waiting::Nothing
    }

    /// Whether the machine is in order: its stack is, it does not wait for
    /// a value that it holds, and its top frame waits for a value just
    /// when there is one.
    pub open spec fn orderly(self) -> bool {
        &&& in_order(self.stack)
        &&& !(self.value is Some && self.waiting != Waiting::Nothing)
        &&& self.stack.len() > 0 ==> self.stack.last().takes_value() == self.has_value()
    }

}

proof fn lemma_push_in_order(stack: Seq<FrameView>, frame: FrameView)
    requires
        in_order(stack),
        takes(stack, frame),
    ensures
        in_order(stack.push(frame)),
{
    let after = stack.push(frame);
    assert forall|i: int| 0 <= i < after.len() - 1 implies (#[trigger] after[i]).takes_value() == after[i
        + 1].leaves_value() by {
        if i < stack.len() - 1 {
            assert(stack[i].takes_value() == stack[i + 1].leaves_value());
        }
    }
}

proof fn lemma_pop_in_order(stack: Seq<FrameView>)
    requires
        in_order(stack),
        stack.len() > 0,
    ensures
        in_order(stack.drop_last()),
        takes(stack.drop_last(), stack.last()),
{
    let after = stack.drop_last();
    assert forall|i: int| 0 <= i < after.len() - 1 implies (#[trigger] after[i]).takes_value() == after[i
        + 1].leaves_value() by {
        assert(stack[i].takes_value() == stack[i + 1].leaves_value());
    }
    if after.len() > 0 {
        assert(stack[after.len() - 1].takes_value() == stack[after.len() - 1 + 1].leaves_value());
    }
}

/// What is left of a stack in order after a `return`: the frames under
/// the frame of the call that returns, which wait for the value of the
/// call.
proof fn lemma_visit_return(machine: InterpreterView, value: ObjectView)
    requires
        in_order(machine.stack),
        machine.waiting == Waiting::Nothing,
    ensures
        machine.visit_return(value).0.orderly(),
        machine.visit_return(value).1 is Continue ==> machine.visit_return(value).0.waiting == Waiting::Nothing,
    decreases machine.stack.len(),
{
    if machine.stack.len() > 0 {
        lemma_pop_in_order(machine.stack);
        let rest = InterpreterView { stack: machine.stack.drop_last(), ..machine };
        match machine.stack.last() {
            FrameView::Return { closure, is_initializer, restore } => {},
            FrameView::Restore { environment } => {
                lemma_visit_return(InterpreterView { environment, ..rest }, value);
            },
            _ => {
                lemma_visit_return(rest, value);
            },
        }
    }
}

/// Two frames on a stack in order: the lower one leaves what the stack
/// takes, and takes what the upper one leaves.
proof fn lemma_push_two(machine: InterpreterView, lower: FrameView, upper: FrameView)
    requires
        in_order(machine.stack),
        takes(machine.stack, lower),
        lower.takes_value() == upper.leaves_value(),
    ensures
        in_order(machine.push(lower).push(upper).stack),
{
    lemma_push_in_order(machine.stack, lower);
    lemma_push_in_order(machine.stack.push(lower), upper);
}

proof fn lemma_evaluate(machine: InterpreterView, expression: ExpressionView)
    requires
        in_order(machine.stack),
        machine.stack.len() > 0 ==> machine.stack.last().takes_value(),
        machine.value is None,
        machine.waiting == Waiting::Nothing,
    ensures
        machine.evaluate(expression).0.orderly(),
        machine.evaluate(expression).1 is Continue ==> machine.evaluate(expression).0.waiting == Waiting::Nothing,
{
    match expression {
        ExpressionView::Literal { value } => {},
        ExpressionView::Grouping { expression } => {
            lemma_push_in_order(machine.stack, FrameView::Evaluate { expression: *expression });
        },
        ExpressionView::Unary { expression, operator } => {
            lemma_push_two(machine, FrameView::Unary { operator }, FrameView::Evaluate { expression: *expression });
        },
        ExpressionView::Binary { left, operator, right } => {
            lemma_push_two(
                machine,
                FrameView::BinaryRight { operator, right: *right },
                FrameView::Evaluate { expression: *left },
            );
        },
        ExpressionView::Logical { left, operator, right } => {
            lemma_push_two(
                machine,
                FrameView::LogicalRight { operator, right: *right },
                FrameView::Evaluate { expression: *left },
            );
        },
        ExpressionView::Variable { name } => {},
        ExpressionView::Assign { name, value } => {
            lemma_push_two(machine, FrameView::Assign { name }, FrameView::Evaluate { expression: *value });
        },
        ExpressionView::Call { callee, paren, arguments } => {
            lemma_push_two(
                machine,
                FrameView::Callee { paren, arguments },
                FrameView::Evaluate { expression: *callee },
            );
        },
        ExpressionView::Get { object, name } => {
            lemma_push_two(machine, FrameView::GetProperty { name }, FrameView::Evaluate { expression: *object });
        },
        ExpressionView::SetField { object, name, value } => {
            lemma_push_two(
                machine,
                FrameView::SetObject { name, value: *value },
                FrameView::Evaluate { expression: *object },
            );
        },
        ExpressionView::This { keyword } => {},
        ExpressionView::Super { keyword, method } => {},
    }
}

proof fn lemma_execute(machine: InterpreterView, statement: StatementView)
    requires
        in_order(machine.stack),
        machine.stack.len() > 0 ==> !machine.stack.last().takes_value(),
        machine.value is None,
        machine.waiting == Waiting::Nothing,
    ensures
        machine.execute(statement).0.orderly(),
        machine.execute(statement).1 is Continue ==> machine.execute(statement).0.waiting == Waiting::Nothing,
{
    match statement {
        StatementView::Expression { expression } => {
            lemma_push_two(machine, FrameView::Discard, FrameView::Evaluate { expression });
        },
        StatementView::Print { expression } => {
            lemma_push_two(machine, FrameView::PrintValue, FrameView::Evaluate { expression });
        },
        StatementView::Var { name, initializer } => match initializer {
            Some(expression) => {
                lemma_push_two(machine, FrameView::Define { name }, FrameView::Evaluate { expression });
            },
            None => {},
        },
        StatementView::Block { statements } => {
            let entered = InterpreterView {
                heap: machine.visit_block(statements).0.heap,
                environment: machine.visit_block(statements).0.environment,
                ..machine
            };
            lemma_push_two(
                entered,
                FrameView::Restore { environment: machine.environment },
                FrameView::Sequence { statements, next: 0 },
            );
        },
        StatementView::If { condition, then_branch, else_branch } => {
            lemma_push_two(
                machine,
                FrameView::Branch {
                    then_branch: *then_branch,
                    else_branch: match else_branch {
                        Some(branch) => Some(*branch),
                        None => None,
                    },
                },
                FrameView::Evaluate { expression: condition },
            );
        },
        StatementView::While { condition, body } => {
            lemma_push_two(
                machine,
                FrameView::Loop { condition, body: *body },
                FrameView::Evaluate { expression: condition },
            );
        },
        StatementView::Function { declaration } => {},
        StatementView::Return { keyword, value } => match value {
            Some(expression) => {
                lemma_push_two(machine, FrameView::ReturnValue, FrameView::Evaluate { expression });
            },
            None => {
                lemma_visit_return(machine, ObjectView::Nil);
            },
        },
        StatementView::Class { declaration } => {},
    }
}

proof fn lemma_func_execute(machine: InterpreterView, function: crate::func::FuncView, arguments: Seq<ObjectView>)
    requires
        in_order(machine.stack),
        machine.stack.len() > 0 ==> machine.stack.last().takes_value(),
        machine.value is None,
        machine.waiting == Waiting::Nothing,
    ensures
        machine.func_execute(function, arguments).0.orderly(),
        machine.func_execute(function, arguments).1 is Continue ==> machine.func_execute(
            function,
            arguments,
        ).0.waiting == Waiting::Nothing,
{
    let entered = InterpreterView {
        heap: machine.func_execute(function, arguments).0.heap,
        environment: machine.func_execute(function, arguments).0.environment,
        ..machine
    };
    lemma_push_two(
        entered,
        FrameView::Return {
            closure: function.closure,
            is_initializer: function.is_initializer,
            restore: machine.environment,
        },
        FrameView::Sequence { statements: function.decl.body, next: 0 },
    );
}

proof fn lemma_next_argument(
    machine: InterpreterView,
    paren: TokenView,
    arguments: Seq<ExpressionView>,
    callee: ObjectView,
    values: Seq<ObjectView>,
)
    requires
        in_order(machine.stack),
        machine.stack.len() > 0 ==> machine.stack.last().takes_value(),
        machine.value is None,
        machine.waiting == Waiting::Nothing,
    ensures
        machine.next_argument(paren, arguments, callee, values).0.orderly(),
        machine.next_argument(paren, arguments, callee, values).1 is Continue ==> machine.next_argument(
            paren,
            arguments,
            callee,
            values,
        ).0.waiting == Waiting::Nothing,
{
    if values.len() < arguments.len() {
        lemma_push_two(
            machine,
            FrameView::Argument { paren, arguments, callee, values },
            FrameView::Evaluate { expression: arguments[values.len() as int] },
        );
    } else {
        match callee {
            ObjectView::Callee(function) => {
                lemma_func_execute(machine, function, values);
            },
            ObjectView::Class(class) => {
                let made = machine.heap.constructor(class);
                match made.2 {
                    Some(initializer) => {
                        lemma_func_execute(InterpreterView { heap: made.0, ..machine }, initializer, values);
                    },
                    None => {},
                }
            },
            _ => {},
        }
    }
}

proof fn lemma_start(machine: InterpreterView, frame: FrameView)
    requires
        in_order(machine.stack),
        takes(machine.stack, frame),
        !frame.takes_value(),
        machine.value is None,
        machine.waiting == Waiting::Nothing,
    ensures
        machine.start(frame).0.orderly(),
        machine.start(frame).1 is Continue ==> machine.start(frame).0.waiting == Waiting::Nothing,
{
    match frame {
        FrameView::Sequence { statements, next } => {
            if next < statements.len() {
                lemma_push_two(
                    machine,
                    FrameView::Sequence { statements, next: (next + 1) as usize },
                    FrameView::Execute { statement: statements[next as int] },
                );
            }
        },
        FrameView::Restore { environment } => {},
        FrameView::Return { closure, is_initializer, restore } => {},
        FrameView::Execute { statement } => {
            lemma_execute(machine, statement);
        },
        FrameView::Evaluate { expression } => {
            lemma_evaluate(machine, expression);
        },
        _ => {},
    }
}

proof fn lemma_apply(machine: InterpreterView, frame: FrameView, value: ObjectView)
    requires
        in_order(machine.stack),
        takes(machine.stack, frame),
        frame.takes_value(),
        machine.value is None,
        machine.waiting == Waiting::Nothing,
    ensures
        machine.apply(frame, value).0.orderly(),
        machine.apply(frame, value).1 is Continue ==> machine.apply(frame, value).0.waiting == Waiting::Nothing,
{
    match frame {
        FrameView::Branch { then_branch, else_branch } => {
            lemma_push_in_order(machine.stack, FrameView::Execute { statement: then_branch });
            match else_branch {
                Some(branch) => {
                    lemma_push_in_order(machine.stack, FrameView::Execute { statement: branch });
                },
                None => {},
            }
        },
        FrameView::Loop { condition, body } => {
            lemma_push_two(machine, FrameView::Loop { condition, body }, FrameView::Evaluate { expression: condition });
            lemma_push_in_order(
                machine.push(FrameView::Loop { condition, body }).push(FrameView::Evaluate { expression: condition }).stack,
                FrameView::Execute { statement: body },
            );
        },
        FrameView::ReturnValue => {
            lemma_visit_return(machine, value);
        },
        FrameView::BinaryRight { operator, right } => {
            lemma_push_two(
                machine,
                FrameView::BinaryApply { operator, left: value },
                FrameView::Evaluate { expression: right },
            );
        },
        FrameView::LogicalRight { operator, right } => {
            lemma_push_in_order(machine.stack, FrameView::Evaluate { expression: right });
        },
        FrameView::Callee { paren, arguments } => {
            lemma_next_argument(machine, paren, arguments, value, Seq::empty());
        },
        FrameView::Argument { paren, arguments, callee, values } => {
            lemma_next_argument(machine, paren, arguments, callee, values.push(value));
        },
        FrameView::SetObject { name, value: expression } => {
            match value {
                ObjectView::Instance(instance) => {
                    lemma_push_two(
                        machine,
                        FrameView::SetValue { name, instance },
                        FrameView::Evaluate { expression },
                    );
                },
                _ => {},
            }
        },
        _ => {},
    }
}

/// No step of the machine brings a machine out of order.
pub proof fn lemma_step_keeps_order(machine: InterpreterView)
    requires
        machine.orderly(),
        machine.waiting == Waiting::Nothing,
    ensures
        machine.step().0.orderly(),
        machine.step().1 is Continue ==> machine.step().0.waiting == Waiting::Nothing,
{
    if machine.stack.len() > 0 {
        lemma_pop_in_order(machine.stack);
        let rest = InterpreterView {
            stack: machine.stack.drop_last(),
            value: None,
            waiting: Waiting::Nothing,
            ..machine
        };
        match machine.value {
            Some(value) => {
                lemma_apply(rest, machine.stack.last(), value);
            },
            None => {
                lemma_start(rest, machine.stack.last());
            },
        }
    }
}

/// In a machine in order every value reaches the frame that waits for it:
/// a step never finds a frame that waits for a value that is not there,
/// and never drops a value at a frame that waits for none.
pub proof fn lemma_values_reach_their_frames(machine: InterpreterView)
    requires
        machine.orderly(),
        machine.waiting == Waiting::Nothing,
        machine.stack.len() > 0,
    ensures
        machine.value is Some <==> machine.stack.last().takes_value(),
        machine.value is None <==> (machine.stack.last() is Sequence || machine.stack.last() is Restore
            || machine.stack.last() is Return || machine.stack.last() is Execute || machine.stack.last() is Evaluate),
{
}

/// The reply of the host brings no machine out of order.
pub proof fn lemma_reply_keeps_order(machine: InterpreterView, reply: Reply)
    requires
        machine.orderly(),
    ensures
        machine.deliver(reply) matches Ok(delivered) ==> delivered.orderly() && delivered.waiting
            == Waiting::Nothing,
        machine.deliver(reply) matches Err(error) ==> machine.fails(error).0.orderly(),
{
}

/// The machine that is made for a program is in order.
pub proof fn lemma_new_machine_is_in_order(statements: Seq<StatementView>, locals: Map<usize, usize>)
    ensures
        (InterpreterView { locals, ..InterpreterView::new() }).interpret(statements).orderly(),
{
}

/// No run of the machine brings a machine out of order.
pub proof fn lemma_run_keeps_order(machine: InterpreterView, budget: nat)
    requires
        machine.orderly(),
        machine.waiting == Waiting::Nothing,
    ensures
        machine.run(budget).0.orderly(),
    decreases budget,
{
    if budget > 0 {
        lemma_step_keeps_order(machine);
        let next = machine.step();
        if next.1 is Continue {
            lemma_run_keeps_order(next.0, (budget - 1) as nat);
        }
    }
}

/// The machine that is ready to run a program is in order, and waits for
/// no reply.
pub proof fn lemma_started_machine_is_in_order(statements: Seq<StatementView>)
    ensures
        crate::fox::started(statements) matches Ok(machine) ==> machine.orderly() && machine.waiting
            == Waiting::Nothing,
{
    match crate::fox::started(statements) {
        Ok(machine) => {
            lemma_new_machine_is_in_order(statements, machine.locals);
        },
        Err(_) => {},
    }
}

} // verus!
