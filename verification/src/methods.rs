//! Method bindings: from a method block to one call entry per routine.
//!
//! A routine is classified by its receiver. Without one it becomes a static
//! call on the owner type; with a read-only one a call on a shared borrow of
//! the instance; with a mutable one a call on an exclusive borrow. What
//! counts is the receiver's type, so `self: &mut Self` is as mutable as
//! `&mut self`. Inputs
//! bound to a single identifier are forwarded in declaration order with their
//! type tokens; inputs bound by any other pattern are left out.

use crate::model::{
    produced, EntryKind, GenError, GenErrorView, Helper, MethodBlock, MethodBlockView, Parameter,
    ParameterView, Receiver, Registration, RegistrationView, RoutineDescriptor,
    RoutineDescriptorView,
};
use crate::render::{helper_text, render_helper};
use crate::syntax::{
    impl_syntax, parse_impl, parse_signature, signature_syntax, ArgumentSyntax,
    ArgumentSyntaxView, ImplSyntax, ImplSyntaxView, MemberSyntax, MemberSyntaxView,
    ReceiverSyntax, SignatureSyntax, SignatureSyntaxView,
};
use vstd::prelude::*;

verus! {

/// The `self` input of a routine: its first input, if that is one.
pub open spec fn receiver_in(inputs: Seq<ArgumentSyntaxView>) -> Option<ReceiverSyntax> {
    if inputs.len() > 0 {
        match inputs[0] {
            ArgumentSyntaxView::Receiver(written) => Some(written),
            _ => None,
        }
    } else {
        None
    }
}

/// The receiver shape of a routine, from its `self` input.
///
/// A routine without one takes no instance. A routine whose receiver is a
/// reference takes the instance as the reference says: mutable for
/// `&mut self` and `self: &mut Self`, read-only for `&self` and
/// `self: &Self`. A receiver of any other type, `self` or `self: Box<Self>`,
/// goes by its binding: mutable if `mut` stands before `self`, read-only
/// otherwise.
pub open spec fn receiver_of(receiver: Option<ReceiverSyntax>) -> Receiver {
    match receiver {
        None => Receiver::Absent,
        Some(written) => {
            let mutable = match written.reference {
                Some(by_mutable_reference) => by_mutable_reference,
                None => written.mutable,
            };
            if mutable {
                Receiver::ByMutRef
            } else {
                Receiver::ByRef
            }
        },
    }
}

/// The kind of call that a receiver shape is registered as.
pub open spec fn call_kind(receiver: Receiver) -> EntryKind {
    match receiver {
        Receiver::Absent => EntryKind::StaticCall,
        Receiver::ByRef => EntryKind::ReadCall,
        Receiver::ByMutRef => EntryKind::MutatingCall,
    }
}

/// The parameter that an input is forwarded as, if it is forwarded.
pub open spec fn forwarded_as(input: ArgumentSyntaxView) -> Option<ParameterView> {
    match input {
        ArgumentSyntaxView::Binding { name, declared_type } => Some(
            ParameterView { name, declared_type },
        ),
        _ => None,
    }
}

/// The forwarded parameters of a routine: its inputs bound to a single
/// identifier, in declaration order.
pub open spec fn forwarded(inputs: Seq<ArgumentSyntaxView>) -> Seq<ParameterView> {
    inputs.filter_map(|input: ArgumentSyntaxView| forwarded_as(input))
}

/// The routine that a signature describes.
pub open spec fn routine_of(signature: SignatureSyntaxView) -> RoutineDescriptorView {
    RoutineDescriptorView {
        name: signature.name,
        receiver: receiver_of(receiver_in(signature.inputs)),
        parameters: forwarded(signature.inputs),
    }
}

/// The routines that a list of signatures describes, in order.
pub open spec fn routines_of(signatures: Seq<SignatureSyntaxView>) -> Seq<RoutineDescriptorView> {
    signatures.map_values(|signature: SignatureSyntaxView| routine_of(signature))
}

/// The signatures of the routines among the members, in order, as the parser
/// reads each one; the first refusal, if the parser turns one down.
pub open spec fn signatures_of(members: Seq<MemberSyntaxView>) -> Result<
    Seq<SignatureSyntaxView>,
    Seq<char>,
>
    decreases members.len(),
{
    if members.len() == 0 {
        Ok(Seq::empty())
    } else {
        match signatures_of(members.drop_last()) {
            Err(message) => Err(message),
            Ok(found) => match members.last() {
                MemberSyntaxView::Other => Ok(found),
                MemberSyntaxView::Routine { signature } => match signature_syntax(signature) {
                    Ok(read) => Ok(found.push(read)),
                    Err(message) => Err(message),
                },
            },
        }
    }
}

/// The method block that a parsed block describes.
pub open spec fn method_block_of(syntax: ImplSyntaxView) -> Result<MethodBlockView, GenErrorView> {
    match signatures_of(syntax.members) {
        Ok(signatures) => Ok(
            MethodBlockView { owner_name: syntax.self_type, routines: routines_of(signatures) },
        ),
        Err(message) => Err(GenErrorView::Syntax { message }),
    }
}

/// The call entry of a routine.
pub open spec fn call_entry(routine: RoutineDescriptorView) -> RegistrationView {
    RegistrationView {
        key: routine.name,
        kind: call_kind(routine.receiver),
        parameters: routine.parameters,
    }
}

/// The call entries of a method block: one per routine, in declaration order.
pub open spec fn call_entries_of(block: MethodBlockView) -> Seq<RegistrationView> {
    block.routines.map_values(|routine: RoutineDescriptorView| call_entry(routine))
}

/// What [`read_method_block`] returns for an item that the parser answered
/// `parsed` for: the method block, or the failure.
pub open spec fn method_block_read(parsed: Result<ImplSyntaxView, Seq<char>>) -> Result<
    MethodBlockView,
    GenErrorView,
> {
    match parsed {
        Err(message) => Err(GenErrorView::Syntax { message }),
        Ok(syntax) => method_block_of(syntax),
    }
}

/// The methods helper of a method block.
pub open spec fn method_block_text(block: MethodBlockView) -> Seq<char> {
    helper_text(block.owner_name, Helper::Methods, call_entries_of(block))
}

/// What [`implementation`] returns for an item that the parser answered
/// `parsed` for: the item followed by its methods helper, or the failure.
pub open spec fn implementation_text(
    item: Seq<char>,
    parsed: Result<ImplSyntaxView, Seq<char>>,
) -> Result<Seq<char>, GenErrorView> {
    match method_block_read(parsed) {
        Err(e) => Err(e),
        Ok(block) => Ok(item + "\n"@ + method_block_text(block)),
    }
}

/// Once the parser has turned down a routine, no later member changes the
/// outcome.
proof fn lemma_refusal_stands(members: Seq<MemberSyntaxView>, upto: int)
    requires
        0 <= upto <= members.len(),
        signatures_of(members.take(upto)) is Err,
    ensures
        signatures_of(members) == signatures_of(members.take(upto)),
    decreases members.len() - upto,
{
    if upto == members.len() {
        assert(members.take(upto) =~= members);
    } else {
        assert(members.take(upto + 1).drop_last() =~= members.take(upto));
        lemma_refusal_stands(members, upto + 1);
    }
}

/// Finds the `self` input of a routine.
pub fn find_receiver(inputs: &Vec<ArgumentSyntax>) -> (r: Option<ReceiverSyntax>)
    ensures
        r == receiver_in(inputs.deep_view()),
{
    if inputs.len() > 0 {
        match &inputs[0] {
            ArgumentSyntax::Receiver(written) => Some(*written),
            _ => None,
        }
    } else {
        None
    }
}

/// Classifies a routine by its `self` input.
pub fn classify_receiver(receiver: Option<ReceiverSyntax>) -> (r: Receiver)
    ensures
        r == receiver_of(receiver),
{
    match receiver {
        None => Receiver::Absent,
        Some(written) => {
            let mutable = match written.reference {
                Some(by_mutable_reference) => by_mutable_reference,
                None => written.mutable,
            };
            if mutable {
                Receiver::ByMutRef
            } else {
                Receiver::ByRef
            }
        },
    }
}

/// Picks the inputs that are forwarded.
pub fn forwarded_parameters(inputs: &Vec<ArgumentSyntax>) -> (r: Vec<Parameter>)
    ensures
        r.deep_view() == forwarded(inputs.deep_view()),
{
    let mut out: Vec<Parameter> = Vec::new();
    let mut i: usize = 0;
    while i < inputs.len()
        invariant
            i <= inputs.len(),
            out.deep_view() == forwarded(inputs.deep_view().take(i as int)),
        decreases inputs.len() - i,
    {
        match &inputs[i] {
            ArgumentSyntax::Binding { name, declared_type } => {
                out.push(Parameter { name: name.clone(), declared_type: declared_type.clone() });
            },
            _ => {},
        }
        proof {
            inputs.deep_view().lemma_filter_map_take_succ(
                |input: ArgumentSyntaxView| forwarded_as(input),
                i as int,
            );
        }
        i += 1;
    }
    proof {
        assert(inputs.deep_view().take(inputs.len() as int) =~= inputs.deep_view());
    }
    out
}

/// Builds the routine that a signature describes.
pub fn describe_routine(signature: &SignatureSyntax) -> (r: RoutineDescriptor)
    ensures
        r.deep_view() == routine_of(signature.deep_view()),
{
    RoutineDescriptor {
        name: signature.name.clone(),
        receiver: classify_receiver(find_receiver(&signature.inputs)),
        parameters: forwarded_parameters(&signature.inputs),
    }
}

/// Builds the method block on `owner` whose routines the signatures describe.
pub fn describe_block(owner: &str, signatures: &Vec<SignatureSyntax>) -> (r: MethodBlock)
    ensures
        r.deep_view() == (MethodBlockView {
            owner_name: owner@,
            routines: routines_of(signatures.deep_view()),
        }),
{
    let mut routines: Vec<RoutineDescriptor> = Vec::new();
    let mut i: usize = 0;
    while i < signatures.len()
        invariant
            i <= signatures.len(),
            routines.deep_view() == routines_of(signatures.deep_view().take(i as int)),
        decreases signatures.len() - i,
    {
        let ghost before = routines.deep_view();
        let routine = describe_routine(&signatures[i]);
        routines.push(routine);
        assert(routines.deep_view() =~= before.push(routine.deep_view()));
        i += 1;
    }
    proof {
        assert(signatures.deep_view().take(signatures.len() as int) =~= signatures.deep_view());
    }
    MethodBlock { owner_name: String::from_str(owner), routines }
}

/// Reads the signature of every routine among the members.
pub fn read_signatures(members: &Vec<MemberSyntax>) -> (r: Result<Vec<SignatureSyntax>, GenError>)
    ensures
        produced(r) == (match signatures_of(members.deep_view()) {
            Ok(signatures) => Ok(signatures),
            Err(message) => Err(GenErrorView::Syntax { message }),
        }),
{
    let mut found: Vec<SignatureSyntax> = Vec::new();
    let mut i: usize = 0;
    assert(found.deep_view() =~= Seq::empty());
    while i < members.len()
        invariant
            i <= members.len(),
            signatures_of(members.deep_view().take(i as int)) == Ok::<
                Seq<SignatureSyntaxView>,
                Seq<char>,
            >(found.deep_view()),
        decreases members.len() - i,
    {
        let ghost all = members.deep_view();
        let ghost before = found.deep_view();
        proof {
            assert(all.take(i + 1).drop_last() =~= all.take(i as int));
        }
        match &members[i] {
            MemberSyntax::Routine { signature } => {
                match parse_signature(signature.as_str()) {
                    Ok(read) => {
                        found.push(read);
                        assert(found.deep_view() =~= before.push(read.deep_view()));
                    },
                    Err(e) => {
                        proof {
                            lemma_refusal_stands(all, i + 1);
                        }
                        return Err(GenError::Syntax { message: e.message });
                    },
                }
            },
            MemberSyntax::Other => {},
        }
        i += 1;
    }
    proof {
        assert(members.deep_view().take(members.len() as int) =~= members.deep_view());
    }
    Ok(found)
}

/// Extracts the method block from a parsed block.
pub fn extract_method_block(syntax: &ImplSyntax) -> (r: Result<MethodBlock, GenError>)
    ensures
        produced(r) == method_block_of(syntax.deep_view()),
{
    match read_signatures(&syntax.members) {
        Ok(signatures) => Ok(describe_block(syntax.self_type.as_str(), &signatures)),
        Err(e) => Err(e),
    }
}

/// Copies a parameter list.
pub fn copy_parameters(parameters: &Vec<Parameter>) -> (r: Vec<Parameter>)
    ensures
        r.deep_view() == parameters.deep_view(),
{
    let mut out: Vec<Parameter> = Vec::new();
    let mut i: usize = 0;
    while i < parameters.len()
        invariant
            i <= parameters.len(),
            out.deep_view() == parameters.deep_view().take(i as int),
        decreases parameters.len() - i,
    {
        let ghost before = out.deep_view();
        let parameter = Parameter {
            name: parameters[i].name.clone(),
            declared_type: parameters[i].declared_type.clone(),
        };
        out.push(parameter);
        assert(out.deep_view() =~= before.push(parameter.deep_view()));
        i += 1;
    }
    out
}

/// Generates the call entries of a method block.
pub fn call_entries(block: &MethodBlock) -> (r: Vec<Registration>)
    ensures
        r.deep_view() == call_entries_of(block.deep_view()),
{
    let mut out: Vec<Registration> = Vec::new();
    let mut i: usize = 0;
    while i < block.routines.len()
        invariant
            i <= block.routines.len(),
            out.deep_view() == call_entries_of(block.deep_view()).take(i as int),
        decreases block.routines.len() - i,
    {
        let routine = &block.routines[i];
        let kind = match routine.receiver {
            Receiver::Absent => EntryKind::StaticCall,
            Receiver::ByRef => EntryKind::ReadCall,
            Receiver::ByMutRef => EntryKind::MutatingCall,
        };
        let ghost before = out.deep_view();
        let entry = Registration {
            key: routine.name.clone(),
            kind,
            parameters: copy_parameters(&routine.parameters),
        };
        out.push(entry);
        assert(out.deep_view() =~= before.push(entry.deep_view()));
        i += 1;
    }
    out
}

/// Reads a method block given as source text. Fails if the text is not a
/// method block.
pub fn read_method_block(item: &str) -> (r: Result<MethodBlock, GenError>)
    ensures
        produced(r) == method_block_read(impl_syntax(item@)),
{
    match parse_impl(item) {
        Err(e) => Err(GenError::Syntax { message: e.message }),
        Ok(syntax) => extract_method_block(&syntax),
    }
}

/// Generates the methods helper of a method block.
pub fn generate_methods_helper(block: &MethodBlock) -> (r: String)
    ensures
        r@ == method_block_text(block.deep_view()),
{
    let entries = call_entries(block);
    render_helper(block.owner_name.as_str(), Helper::Methods, &entries)
}

/// Generates the call bindings of a method block given as source text: the
/// block itself, followed by the helper routine that registers one call per
/// routine. Fails, generating nothing, if the text is not a method block.
pub fn implementation(item: &str) -> (r: Result<String, GenError>)
    ensures
        produced(r) == implementation_text(item@, impl_syntax(item@)),
{
    match read_method_block(item) {
        Err(e) => Err(e),
        Ok(block) => {
            let helper = generate_methods_helper(&block);
            let mut out = String::from_str(item);
            out.append("\n");
            out.append(helper.as_str());
            Ok(out)
        },
    }
}

/// Every routine of a method block has exactly one call entry, at its own
/// place in the order of declaration and keyed by its name: a static call
/// for a routine without receiver, a read call for one with a read-only
/// receiver, a mutating call for one with a mutable receiver. The entry
/// forwards the routine's parameters as they stand. If no two routines share
/// a name, no two entries share a key.
pub proof fn calls_follow_receivers(block: MethodBlockView)
    ensures
        call_entries_of(block).len() == block.routines.len(),
        forall|i: int|
            0 <= i < block.routines.len() ==> {
                let routine = block.routines[i];
                let entry = #[trigger] call_entries_of(block)[i];
                &&& entry.key == routine.name
                &&& entry.parameters == routine.parameters
                &&& (routine.receiver == Receiver::Absent ==> entry.kind == EntryKind::StaticCall)
                &&& (routine.receiver == Receiver::ByRef ==> entry.kind == EntryKind::ReadCall)
                &&& (routine.receiver == Receiver::ByMutRef ==> entry.kind
                    == EntryKind::MutatingCall)
            },
        block.well_formed() ==> forall|i: int, j: int|
            0 <= i < j < block.routines.len() ==> (#[trigger] call_entries_of(block)[i]).key != (
            #[trigger] call_entries_of(block)[j]).key,
{
}

/// A routine is registered by its receiver, whichever way that is spelled:
/// as a static call without one, as a mutating call with a mutable
/// reference, as a read call with a shared reference. With a receiver that
/// is no reference, it is a mutating call if `mut` stands before `self` and
/// a read call otherwise.
pub proof fn signature_registered_by_receiver(signature: SignatureSyntaxView)
    ensures
        call_entry(routine_of(signature)).key == signature.name,
        call_entry(routine_of(signature)).parameters == forwarded(signature.inputs),
        match receiver_in(signature.inputs) {
            None => call_entry(routine_of(signature)).kind == EntryKind::StaticCall,
            Some(written) => match written.reference {
                Some(by_mutable_reference) => call_entry(routine_of(signature)).kind == (
                if by_mutable_reference {
                    EntryKind::MutatingCall
                } else {
                    EntryKind::ReadCall
                }),
                None => call_entry(routine_of(signature)).kind == (if written.mutable {
                    EntryKind::MutatingCall
                } else {
                    EntryKind::ReadCall
                }),
            },
        },
{
}

/// The forwarded parameters keep the order of declaration. The positions
/// returned, one per forwarded parameter, rise strictly; the input at each is
/// bound to a single identifier and is the parameter, name and type; and no
/// input bound to a single identifier is left out.
pub proof fn forwarded_keeps_order(inputs: Seq<ArgumentSyntaxView>) -> (positions: Seq<int>)
    ensures
        positions.len() == forwarded(inputs).len(),
        forall|k: int|
            0 <= k < positions.len() ==> 0 <= #[trigger] positions[k] < inputs.len()
                && forwarded_as(inputs[positions[k]]) == Some(forwarded(inputs)[k]),
        forall|k: int, l: int|
            0 <= k < l < positions.len() ==> #[trigger] positions[k] < #[trigger] positions[l],
        forall|p: int|
            0 <= p < inputs.len() && forwarded_as(#[trigger] inputs[p]) is Some
                ==> positions.contains(p),
    decreases inputs.len(),
{
    if inputs.len() == 0 {
        Seq::empty()
    } else {
        let rest = inputs.drop_last();
        let last = inputs.len() - 1;
        let earlier = forwarded_keeps_order(rest);
        let positions = match forwarded_as(inputs.last()) {
            Some(_) => earlier.push(last),
            None => earlier,
        };
        assert forall|p: int|
            0 <= p < inputs.len() && forwarded_as(#[trigger] inputs[p]) is Some implies positions.contains(
            p,
        ) by {
            if p < last {
                assert(rest[p] == inputs[p]);
                assert(earlier.contains(p));
                let k = choose|k: int| 0 <= k < earlier.len() && earlier[k] == p;
                assert(positions[k] == p);
            } else {
                assert(positions[positions.len() - 1] == p);
            }
        }
        positions
    }
}

} // verus!
