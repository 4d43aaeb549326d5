//! What the generator of skeletons and proxies decides before it writes any
//! code: whether its arguments are in order, which id each method of a
//! service trait receives, and which smart pointers can serve the trait.
//!
//! The generator itself works on syntax trees and lives outside this crate.
//! It describes the trait it was given in plain values and asks here.

use crate::packet::MethodId;
use vstd::prelude::*;

verus! {

/// The path of the serialization format that `service` uses when it is
/// given none.
pub fn default_serde_path() -> (path: String)
    ensures
        path@ == "serde_cbor"@,
{
    "serde_cbor".to_owned()
}

/// Why the generator refuses its input.
#[derive(PartialEq, Eq, Structural, Debug, Clone, Copy)]
pub enum MacroError {
    /// The advanced form needs exactly one argument, the path of the
    /// serialization format.
    NeedsOneArgument,
    /// The plain form takes no argument.
    TakesNoArgument,
    /// The item that the attribute stands on is no trait.
    NotATrait,
}

/// The arguments of the advanced form of `service`.
pub struct MacroArgs {
    /// The path of a module with the functions `to_writer` and
    /// `from_reader` of a serialization format.
    pub serde_path: String,
}

impl MacroArgs {
    /// Takes the arguments of the attribute, each the text of a path. There
    /// must be exactly one.
    pub fn parse(mut paths: Vec<String>) -> (result: Result<MacroArgs, MacroError>)
        ensures
            result is Ok <==> paths@.len() == 1,
            result matches Ok(args) ==> args.serde_path == paths@[0],
            result matches Err(e) ==> e == MacroError::NeedsOneArgument,
    {
        if paths.len() != 1 {
            return Err(MacroError::NeedsOneArgument);
        }
        match paths.pop() {
            Some(serde_path) => Ok(MacroArgs { serde_path }),
            None => Err(MacroError::NeedsOneArgument),
        }
    }
}

/// How a method takes the service object.
#[derive(PartialEq, Eq, Structural, Debug, Clone, Copy)]
pub enum Receiver {
    /// By shared reference, `&self`.
    Shared,
    /// By exclusive reference, `&mut self`.
    Exclusive,
}

/// A method of a service trait, as far as the generator needs it.
pub struct MethodDescription {
    pub name: String,
    pub receiver: Receiver,
}

/// A service trait, as far as the generator needs it.
pub struct TraitDescription {
    pub name: String,
    /// The methods, in the order of the source.
    pub methods: Vec<MethodDescription>,
}

/// What the generator was given.
pub enum MacroInput {
    /// A trait.
    Trait(TraitDescription),
    /// Anything else.
    Other,
}

/// What the generator is to write code for.
pub struct ServicePlan {
    pub serde_path: String,
    pub source_trait: TraitDescription,
}

/// Checks the input of the advanced form and plans the code for it.
pub fn service_adv(args: Vec<String>, input: MacroInput) -> (result: Result<ServicePlan, MacroError>)
    ensures
        match input {
            MacroInput::Other => result matches Err(e) && e == MacroError::NotATrait,
            MacroInput::Trait(source_trait) => if args@.len() == 1 {
                result matches Ok(plan) && plan.serde_path == args@[0] && plan.source_trait
                    == source_trait
            } else {
                result matches Err(e) && e == MacroError::NeedsOneArgument
            },
        },
{
    let source_trait = match input {
        MacroInput::Trait(source_trait) => source_trait,
        MacroInput::Other => {
            return Err(MacroError::NotATrait);
        },
    };
    match MacroArgs::parse(args) {
        Ok(parsed) => Ok(ServicePlan { serde_path: parsed.serde_path, source_trait }),
        Err(e) => Err(e),
    }
}

/// Checks the input of the plain form, which takes no argument and uses the
/// default serialization format, and plans the code for it.
pub fn service(args: Vec<String>, input: MacroInput) -> (result: Result<ServicePlan, MacroError>)
    ensures
        args@.len() > 0 ==> (result matches Err(e) && e == MacroError::TakesNoArgument),
        args@.len() == 0 ==> match input {
            MacroInput::Other => result matches Err(e) && e == MacroError::NotATrait,
            MacroInput::Trait(source_trait) => result matches Ok(plan) && plan.serde_path@
                == "serde_cbor"@ && plan.source_trait == source_trait,
        },
{
    if args.len() != 0 {
        return Err(MacroError::TakesNoArgument);
    }
    let mut default_args: Vec<String> = Vec::new();
    default_args.push(default_serde_path());
    service_adv(default_args, input)
}

impl TraitDescription {
    /// The names of the methods, in the order of the source.
    pub open spec fn spec_names(&self) -> Seq<Seq<char>> {
        self.methods@.map_values(|m: MethodDescription| m.name@)
    }

    /// The id of the method called `name`: its place in the source, counted
    /// from zero. Of several methods with one name the first counts.
    pub fn method_id(&self, name: &String) -> (id: Option<MethodId>)
        ensures
            id is None ==> forall|k: int|
                0 <= k < self.methods@.len() && k <= MethodId::MAX ==> self.spec_names()[k]
                    != name@,
            id matches Some(i) ==> {
                &&& i < self.methods@.len()
                &&& self.spec_names()[i as int] == name@
                &&& forall|k: int| 0 <= k < i ==> self.spec_names()[k] != name@
            },
    {
        let mut i: usize = 0;
        while i < self.methods.len() && i <= MethodId::MAX as usize
            invariant
                i <= self.methods@.len(),
                i <= MethodId::MAX + 1,
                forall|k: int| 0 <= k < i ==> self.spec_names()[k] != name@,
            decreases self.methods@.len() - i,
        {
            if self.methods[i].name == *name {
                return Some(i as MethodId);
            }
            i = i + 1;
        }
        None
    }

    /// Whether a service object of this trait can be exported from an `Arc`
    /// alone: no method may take it by exclusive reference. A trait with
    /// such a method is exported from a `Box` or from an `Arc` of a lock.
    pub fn supports_arc(&self) -> (supported: bool)
        ensures
            supported == forall|i: int|
                0 <= i < self.methods@.len() ==> (#[trigger] self.methods@[i]).receiver
                    == Receiver::Shared,
    {
        let mut i: usize = 0;
        while i < self.methods.len()
            invariant
                i <= self.methods@.len(),
                forall|k: int|
                    0 <= k < i ==> (#[trigger] self.methods@[k]).receiver == Receiver::Shared,
            decreases self.methods@.len() - i,
        {
            match self.methods[i].receiver {
                Receiver::Exclusive => {
                    return false;
                },
                Receiver::Shared => {},
            }
            i = i + 1;
        }
        true
    }
}

} // verus!
