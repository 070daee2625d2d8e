//! `Function` and its prototype: what `Function()`, `new Function()`,
//! `Function.prototype.call` and `Function.prototype.apply` decide. The
//! virtual machine does the work that needs its heap and hands back what it
//! found; the decisions are made here.

use vstd::prelude::*;

verus! {

/// A script object, known by its place in the virtual machine's heap.
#[derive(Clone, Copy, Debug, PartialEq, Eq, Structural)]
pub struct Object(pub u64);

/// A script value. A number is held as the bits of its double, a string by
/// its place in the heap.
#[derive(Clone, Copy, Debug, PartialEq, Eq, Structural)]
pub enum Value {
    Undefined,
    Null,
    Bool(bool),
    Number(u64),
    String(u64),
    Object(Object),
}

/// What a called function finds as `this`.
#[derive(Clone, Copy, Debug, PartialEq, Eq, Structural)]
pub enum Receiver {
    /// The global object.
    Globals,
    /// The object that the value is, or is boxed into.
    Coerced(Value),
}

/// How the virtual machine is to end a call.
#[derive(Debug)]
pub enum Action {
    /// With this value.
    Return(Value),
    /// With a new object that has no prototype.
    ReturnBareObject,
    /// With what the function returns when it is run as an anonymous
    /// function call, one level down.
    Execute { receiver: Receiver, args: Vec<Value> },
}

/// The end of a call as a mathematical value.
pub enum ActionView {
    Return(Value),
    ReturnBareObject,
    Execute { receiver: Receiver, args: Seq<Value> },
}

impl View for Action {
    type V = ActionView;

    open spec fn view(&self) -> ActionView {
        match self {
            Action::Return(value) => ActionView::Return(*value),
            Action::ReturnBareObject => ActionView::ReturnBareObject,
            Action::Execute { receiver, args } => ActionView::Execute {
                receiver: *receiver,
                args: args@,
            },
        }
    }
}

/// What the virtual machine is to do next for `apply`.
#[derive(Debug)]
pub enum ApplyStep {
    /// Read the object's `length` as a count and answer with it.
    GetLength(Object),
    /// Read the element at `index` of the object that `of` is, or is boxed
    /// into, and answer with it.
    GetElement { of: Value, index: usize },
    /// End the call.
    Finish(Action),
}

/// A step of `apply` as a mathematical value.
pub enum ApplyStepView {
    GetLength(Object),
    GetElement { of: Value, index: usize },
    Finish(ActionView),
}

impl View for ApplyStep {
    type V = ApplyStepView;

    open spec fn view(&self) -> ApplyStepView {
        match self {
            ApplyStep::GetLength(object) => ApplyStepView::GetLength(*object),
            ApplyStep::GetElement { of, index } => ApplyStepView::GetElement {
                of: *of,
                index: *index,
            },
            ApplyStep::Finish(action) => ApplyStepView::Finish(action@),
        }
    }
}

/// What the virtual machine answers while `apply` collects its arguments.
#[derive(Clone, Copy, Debug, PartialEq, Eq, Structural)]
pub enum Answer {
    /// The call begins.
    Start,
    /// The `length` that was asked for.
    Length(usize),
    /// The element that was asked for.
    Element(Value),
}

/// The methods of `Function.prototype`.
#[derive(Clone, Copy, Debug, PartialEq, Eq, Structural)]
pub enum Method {
    Call,
    Apply,
    ToString,
}

/// A property of a prototype: its name and the method behind it.
#[derive(Clone, Copy, Debug)]
pub struct Declaration {
    pub name: &'static str,
    pub method: Method,
}

/// The receiver that the first argument of `call` or `apply` names: the
/// global object where it is missing, undefined or null.
pub open spec fn receiver_of(args: Seq<Value>) -> Receiver {
    if args.len() == 0 || args[0] == Value::Undefined || args[0] == Value::Null {
        Receiver::Globals
    } else {
        Receiver::Coerced(args[0])
    }
}

/// The arguments after the first.
pub open spec fn rest_of(args: Seq<Value>) -> Seq<Value> {
    if args.len() == 0 {
        args
    } else {
        args.subrange(1, args.len() as int)
    }
}

/// The value that `apply` takes its arguments from: its second argument.
pub open spec fn source_of(args: Seq<Value>) -> Value {
    if args.len() < 2 {
        Value::Undefined
    } else {
        args[1]
    }
}

/// How a call ends once its arguments are known: a function is run, and
/// anything else gives undefined.
pub open spec fn invoke(executable: bool, receiver: Receiver, args: Seq<Value>) -> ActionView {
    if executable {
        ActionView::Execute { receiver, args }
    } else {
        ActionView::Return(Value::Undefined)
    }
}

/// Implements `new Function()`: the new object itself.
pub fn constructor(this: Object, args: &[Value]) -> (value: Value)
    ensures
        value == Value::Object(this),
{
    Value::Object(this)
}

/// Implements `Function()`: the first argument, or without one a bare
/// object that has no prototype.
pub fn function(args: &[Value]) -> (action: Action)
    ensures
        action@ == if args@.len() > 0 {
            ActionView::Return(args@[0])
        } else {
            ActionView::ReturnBareObject
        },
{
    if args.len() > 0 {
        Action::Return(args[0])
    } else {
        Action::ReturnBareObject
    }
}

/// Implements `Function.prototype.toString`.
pub fn to_string() -> (text: &'static str)
    ensures
        text@ == "[type Function]"@,
{
    "[type Function]"
}

/// The receiver that the first argument of `call` or `apply` names. It is
/// settled before anything else of the call.
pub fn receiver(args: &[Value]) -> (receiver: Receiver)
    ensures
        receiver == receiver_of(args@),
{
    if args.len() == 0 {
        Receiver::Globals
    } else {
        match args[0] {
            Value::Undefined => Receiver::Globals,
            Value::Null => Receiver::Globals,
            value => Receiver::Coerced(value),
        }
    }
}

fn invocation(executable: bool, receiver: Receiver, args: Vec<Value>) -> (action: Action)
    ensures
        action@ == invoke(executable, receiver, args@),
{
    if executable {
        Action::Execute { receiver, args }
    } else {
        Action::Return(Value::Undefined)
    }
}

/// Implements `Function.prototype.call`: the function runs with the first
/// argument as `this` and the others as its arguments. `executable` says
/// whether the object that `call` was called on is a function.
pub fn call(executable: bool, myargs: &[Value]) -> (action: Action)
    ensures
        action@ == invoke(executable, receiver_of(myargs@), rest_of(myargs@)),
{
    let this = receiver(myargs);
    let mut args: Vec<Value> = Vec::new();
    let mut i: usize = 1;
    while i < myargs.len()
        invariant
            1 <= i,
            i <= myargs@.len() || myargs@.len() == 0,
            myargs@.len() > 0 ==> args@ == myargs@.subrange(1, i as int),
            myargs@.len() == 0 ==> args@ == myargs@,
        decreases myargs@.len() - i,
    {
        args.push(myargs[i]);
        assert(args@ =~= myargs@.subrange(1, i + 1));
        i += 1;
    }
    assert(args@ =~= rest_of(myargs@));
    invocation(executable, this, args)
}

/// The arguments that `apply` has collected so far.
#[derive(Debug)]
pub struct Collected {
    length: usize,
    args: Vec<Value>,
}

/// The collected arguments as a mathematical value.
pub struct CollectedView {
    /// How many arguments there are to collect.
    pub length: usize,
    /// The arguments that were read, in order.
    pub args: Seq<Value>,
}

impl View for Collected {
    type V = CollectedView;

    closed spec fn view(&self) -> CollectedView {
        CollectedView { length: self.length, args: self.args@ }
    }
}

impl CollectedView {
    /// Nothing collected, nothing to collect.
    pub open spec fn empty() -> CollectedView {
        CollectedView { length: 0, args: Seq::empty() }
    }

    /// Goes on collecting: asks for the next element while any is missing,
    /// and runs the function on what was collected once none is.
    pub open spec fn proceed(self, executable: bool, myargs: Seq<Value>) -> (
        CollectedView,
        ApplyStepView,
    ) {
        if self.args.len() < self.length {
            (
                self,
                ApplyStepView::GetElement {
                    of: source_of(myargs),
                    index: self.args.len() as usize,
                },
            )
        } else {
            (self, ApplyStepView::Finish(invoke(executable, receiver_of(myargs), self.args)))
        }
    }

    /// One step of `apply`. At the start the count of arguments is asked
    /// for where the source is an object, and taken as none where it is
    /// not. The count that is answered says how many elements to read, and
    /// each element that is answered is the next argument.
    pub open spec fn step(self, executable: bool, myargs: Seq<Value>, answer: Answer) -> (
        CollectedView,
        ApplyStepView,
    ) {
        match answer {
            Answer::Start => match source_of(myargs) {
                Value::Object(object) => (
                    CollectedView::empty(),
                    ApplyStepView::GetLength(object),
                ),
                _ => CollectedView::empty().proceed(executable, myargs),
            },
            Answer::Length(length) => (CollectedView { length, args: Seq::empty() }).proceed(
                executable,
                myargs,
            ),
            Answer::Element(value) => (CollectedView {
                length: self.length,
                args: if self.args.len() < self.length {
                    self.args.push(value)
                } else {
                    self.args
                },
            }).proceed(executable, myargs),
        }
    }
}

impl Collected {
    /// Nothing collected, nothing to collect.
    pub fn new() -> (collected: Collected)
        ensures
            collected@ == CollectedView::empty(),
    {
        Collected { length: 0, args: Vec::new() }
    }

    fn proceed(&mut self, executable: bool, myargs: &[Value]) -> (step: ApplyStep)
        ensures
            (final(self)@, step@) == old(self)@.proceed(executable, myargs@),
    {
        if self.args.len() < self.length {
            let of = if myargs.len() < 2 {
                Value::Undefined
            } else {
                myargs[1]
            };
            ApplyStep::GetElement { of, index: self.args.len() }
        } else {
            let mut args: Vec<Value> = Vec::new();
            let mut i: usize = 0;
            while i < self.args.len()
                invariant
                    i <= self.args@.len(),
                    args@ == self.args@.subrange(0, i as int),
                decreases self.args@.len() - i,
            {
                args.push(self.args[i]);
                assert(args@ =~= self.args@.subrange(0, i + 1));
                i += 1;
            }
            assert(args@ =~= self.args@);
            ApplyStep::Finish(invocation(executable, receiver(myargs), args))
        }
    }
}

/// Implements `Function.prototype.apply`: the function runs with the first
/// argument as `this` and the elements of the second as its arguments. The
/// elements are read one by one, as many as the second argument's `length`
/// says, and `collected` holds them between the steps. `executable` says
/// whether the object that `apply` was called on is a function.
pub fn apply(collected: &mut Collected, executable: bool, myargs: &[Value], answer: Answer) -> (step:
    ApplyStep)
    ensures
        (final(collected)@, step@) == old(collected)@.step(executable, myargs@, answer),
{
    match answer {
        Answer::Start => {
            collected.length = 0;
            collected.args = Vec::new();
            let source = if myargs.len() < 2 {
                Value::Undefined
            } else {
                myargs[1]
            };
            match source {
                Value::Object(object) => ApplyStep::GetLength(object),
                _ => collected.proceed(executable, myargs),
            }
        },
        Answer::Length(length) => {
            collected.length = length;
            collected.args = Vec::new();
            collected.proceed(executable, myargs)
        },
        Answer::Element(value) => {
            if collected.args.len() < collected.length {
                collected.args.push(value);
            }
            collected.proceed(executable, myargs)
        },
    }
}

/// The properties of `Function.prototype`, in the order they are defined.
pub open spec fn proto_methods() -> Seq<(Seq<char>, Method)> {
    seq![("call"@, Method::Call), ("apply"@, Method::Apply), ("toString"@, Method::ToString)]
}

/// Partially constructs `Function.prototype`: the properties it is to have.
/// Linking the object into the prototype chain is left to the caller.
pub fn create_proto() -> (declarations: Vec<Declaration>)
    ensures
        declarations@.len() == proto_methods().len(),
        forall|i: int|
            0 <= i < declarations@.len() ==> (#[trigger] declarations@[i]).name@ == proto_methods()[i].0
                && declarations@[i].method == proto_methods()[i].1,
{
    let mut declarations: Vec<Declaration> = Vec::new();
    declarations.push(Declaration { name: "call", method: Method::Call });
    declarations.push(Declaration { name: "apply", method: Method::Apply });
    declarations.push(Declaration { name: "toString", method: Method::ToString });
    declarations
}

impl CollectedView {
    /// Where `apply` stands after the virtual machine has answered its
    /// requests for elements with `elements`, one after the other.
    pub open spec fn after_elements(
        self,
        executable: bool,
        myargs: Seq<Value>,
        elements: Seq<Value>,
    ) -> (CollectedView, ApplyStepView)
        decreases elements.len(),
    {
        if elements.len() == 0 {
            self.proceed(executable, myargs)
        } else {
            self.after_elements(executable, myargs, elements.drop_last()).0.step(
                executable,
                myargs,
                Answer::Element(elements.last()),
            )
        }
    }
}

/// `apply` passes on what it reads. When the virtual machine answers that
/// the source has `elements.len()` elements and then answers each request
/// for an element with the next of `elements`, `apply` asks for the
/// elements in order, and ends by running the function on exactly
/// `elements`, or with undefined where there is no function to run.
pub proof fn lemma_apply_passes_elements_on(
    collected: CollectedView,
    executable: bool,
    myargs: Seq<Value>,
    elements: Seq<Value>,
    read: int,
)
    requires
        elements.len() <= usize::MAX,
        0 <= read <= elements.len(),
    ensures
        ({
            let counted = collected.step(
                executable,
                myargs,
                Answer::Length(elements.len() as usize),
            ).0;
            let (state, step) = counted.after_elements(
                executable,
                myargs,
                elements.subrange(0, read),
            );
            &&& state.args == elements.subrange(0, read)
            &&& state.length == elements.len()
            &&& read < elements.len() ==> step == (ApplyStepView::GetElement {
                of: source_of(myargs),
                index: read as usize,
            })
            &&& read == elements.len() ==> step == ApplyStepView::Finish(
                invoke(executable, receiver_of(myargs), elements),
            )
        }),
    decreases read,
{
    let counted = collected.step(executable, myargs, Answer::Length(elements.len() as usize)).0;
    if read == 0 {
        assert(elements.subrange(0, 0) =~= Seq::<Value>::empty());
        assert(counted.args =~= elements.subrange(0, 0));
        if elements.len() == 0 {
            assert(counted.args =~= elements);
        }
    } else {
        lemma_apply_passes_elements_on(collected, executable, myargs, elements, read - 1);
        let prefix = elements.subrange(0, read);
        assert(prefix.drop_last() =~= elements.subrange(0, read - 1));
        assert(prefix.last() == elements[read - 1]);
        assert(elements.subrange(0, read - 1).push(elements[read - 1]) =~= prefix);
        if read == elements.len() {
            assert(prefix =~= elements);
        }
    }
}

/// However the virtual machine answers, `apply` hands a function no more
/// arguments than the count it was told, and once it has collected that
/// many it asks for no more.
pub proof fn lemma_apply_collects_up_to_length(
    collected: CollectedView,
    executable: bool,
    myargs: Seq<Value>,
    answer: Answer,
)
    requires
        collected.args.len() <= collected.length,
    ensures
        ({
            let (next, step) = collected.step(executable, myargs, answer);
            &&& next.args.len() <= next.length
            &&& step matches ApplyStepView::GetElement { of, index } ==> index == next.args.len()
                && index < next.length && of == source_of(myargs)
            &&& step matches ApplyStepView::Finish(ActionView::Execute { receiver, args })
                ==> args == next.args && args.len() == next.length && receiver == receiver_of(
                myargs,
            ) && executable
            &&& step matches ApplyStepView::Finish(action) ==> !(action is ReturnBareObject)
        }),
{
}

} // verus!
