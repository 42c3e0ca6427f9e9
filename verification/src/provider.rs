//! The requests that go to the provider's command-line tool and the reading
//! of what it gives back. Running the tool is left to the caller.

use vstd::prelude::*;
use vstd::string::StringExecFns;
use crate::cloud::CloudClient;
use crate::error::{detail_of, GciError};
use crate::instance::Instance;
use crate::text::same_text;
use crate::ui::Action;

verus! {

/// What one run of the provider's tool gave back.
#[derive(Debug, Clone)]
pub struct CommandOutput {
    /// Whether the tool reported success.
    pub success: bool,
    pub stdout: String,
    pub stderr: String,
}

/// What the provider's tool is asked to do.
#[derive(Debug, Clone, Copy, PartialEq, Eq, Structural)]
pub enum Operation {
    List,
    Describe,
    Start,
    Stop,
    Restart,
    Delete,
}

/// The texts of a list of texts.
pub open spec fn texts(v: Seq<String>) -> Seq<Seq<char>> {
    Seq::new(v.len(), |i: int| v[i]@)
}

/// The arguments that ask for JSON, where it is wanted.
pub open spec fn format_args(json_output: bool) -> Seq<Seq<char>> {
    if json_output {
        seq!["--format"@, "json"@]
    } else {
        Seq::empty()
    }
}

/// The arguments that list the instances of a project.
pub open spec fn list_args(project: Seq<char>, json_output: bool) -> Seq<Seq<char>> {
    seq!["compute"@, "instances"@, "list"@, "--project"@, project] + format_args(json_output)
}

/// The word by which the tool knows an operation on one instance. A restart
/// is the tool's single `reset`, not a stop followed by a start.
pub open spec fn verb_of(op: Operation) -> Option<Seq<char>> {
    match op {
        Operation::List => None,
        Operation::Describe => Some("describe"@),
        Operation::Start => Some("start"@),
        Operation::Stop => Some("stop"@),
        Operation::Restart => Some("reset"@),
        Operation::Delete => Some("delete"@),
    }
}

/// The arguments that address one instance: the operation's word, the
/// instance's name, its zone and the project.
pub open spec fn target_args(
    verb: Seq<char>,
    name: Seq<char>,
    zone: Seq<char>,
    project: Seq<char>,
) -> Seq<Seq<char>> {
    seq!["compute"@, "instances"@, verb, name, "--zone"@, zone, "--project"@, project]
}

/// The arguments of an operation on one instance. Describing asks for JSON
/// where it is wanted; whatever changes the instance runs without prompts.
/// Listing is no operation on one instance.
pub open spec fn instance_args(
    op: Operation,
    name: Seq<char>,
    zone: Seq<char>,
    project: Seq<char>,
    json_output: bool,
) -> Option<Seq<Seq<char>>> {
    match verb_of(op) {
        None => None,
        Some(verb) => if op == Operation::Describe {
            Some(target_args(verb, name, zone, project) + format_args(json_output))
        } else {
            Some(target_args(verb, name, zone, project) + seq!["--quiet"@])
        },
    }
}

/// The operation that performs an action; none for an action that the
/// provider's tool does not perform.
pub open spec fn operation_of(action: Action) -> Option<Operation> {
    match action {
        Action::Start => Some(Operation::Start),
        Action::Stop => Some(Operation::Stop),
        Action::Restart => Some(Operation::Restart),
        Action::Delete => Some(Operation::Delete),
        Action::Ssh => None,
        Action::Noop => None,
    }
}

/// The words that introduce the failure of an operation.
pub open spec fn failure_heading(op: Operation) -> Seq<char> {
    match op {
        Operation::List => "Failed to list instances: "@,
        Operation::Describe => "Failed to get instance details: "@,
        Operation::Start => "Failed to start instance: "@,
        Operation::Stop => "Failed to stop instance: "@,
        Operation::Restart => "Failed to restart instance: "@,
        Operation::Delete => "Failed to delete instance: "@,
    }
}

/// An identifier names an instance if it is its identifier or its name.
pub open spec fn names_instance(inst: Instance, wanted: Seq<char>) -> bool {
    inst.id@ == wanted || inst.name@ == wanted
}

/// The operation that performs an action.
pub fn operation_for(action: Action) -> (r: Option<Operation>)
    ensures
        r == operation_of(action),
{
    match action {
        Action::Start => Some(Operation::Start),
        Action::Stop => Some(Operation::Stop),
        Action::Restart => Some(Operation::Restart),
        Action::Delete => Some(Operation::Delete),
        Action::Ssh => None,
        Action::Noop => None,
    }
}

fn push_format_args(args: &mut Vec<String>, json_output: bool)
    ensures
        texts(final(args)@) == texts(old(args)@) + format_args(json_output),
{
    if json_output {
        args.push(String::from_str("--format"));
        args.push(String::from_str("json"));
    }
    proof {
        assert(texts(args@) =~= texts(old(args)@) + format_args(json_output));
    }
}

impl CloudClient {
    /// The arguments with which the tool lists the project's instances.
    pub fn list_command(&self) -> (r: Vec<String>)
        ensures
            texts(r@) == list_args(self@.project_id, self@.json_output),
    {
        let mut args: Vec<String> = Vec::new();
        args.push(String::from_str("compute"));
        args.push(String::from_str("instances"));
        args.push(String::from_str("list"));
        args.push(String::from_str("--project"));
        args.push(String::from_str(self.get_project_id()));
        proof {
            assert(texts(args@) =~= seq![
                "compute"@,
                "instances"@,
                "list"@,
                "--project"@,
                self@.project_id,
            ]);
        }
        push_format_args(&mut args, self.json_output());
        args
    }

    /// The arguments with which the tool performs an operation on one
    /// instance; `None` for listing, which addresses no instance.
    pub fn instance_command(&self, op: Operation, inst: &Instance) -> (r: Option<Vec<String>>)
        ensures
            r is Some == instance_args(
                op,
                inst.name@,
                inst.zone@,
                self@.project_id,
                self@.json_output,
            ) is Some,
            r is Some ==> Some(texts(r->0@)) == instance_args(
                op,
                inst.name@,
                inst.zone@,
                self@.project_id,
                self@.json_output,
            ),
    {
        let verb = match op {
            Operation::List => {
                return None;
            },
            Operation::Describe => String::from_str("describe"),
            Operation::Start => String::from_str("start"),
            Operation::Stop => String::from_str("stop"),
            Operation::Restart => String::from_str("reset"),
            Operation::Delete => String::from_str("delete"),
        };
        let ghost verb_text = verb@;
        let mut args: Vec<String> = Vec::new();
        args.push(String::from_str("compute"));
        args.push(String::from_str("instances"));
        args.push(verb);
        args.push(inst.name.clone());
        args.push(String::from_str("--zone"));
        args.push(inst.zone.clone());
        args.push(String::from_str("--project"));
        args.push(String::from_str(self.get_project_id()));
        proof {
            assert(texts(args@) =~= target_args(
                verb_text,
                inst.name@,
                inst.zone@,
                self@.project_id,
            ));
        }
        if op == Operation::Describe {
            push_format_args(&mut args, self.json_output());
        } else {
            let ghost before = args@;
            args.push(String::from_str("--quiet"));
            proof {
                assert(texts(args@) =~= texts(before) + seq!["--quiet"@]);
            }
        }
        Some(args)
    }
}

/// Finds the one instance that an identifier names, by identifier or by
/// name. Where it names none, or more than one, nothing is found.
pub fn resolve(instances: &Vec<Instance>, instance_id: &str) -> (r: Result<usize, GciError>)
    ensures
        r is Ok ==> r->Ok_0 < instances@.len() && names_instance(
            instances@[r->Ok_0 as int],
            instance_id@,
        ) && forall|j: int|
            0 <= j < instances@.len() && j != r->Ok_0 ==> !names_instance(
                #[trigger] instances@[j],
                instance_id@,
            ),
        r is Err ==> r->Err_0 is InstanceNotFound && detail_of(r->Err_0) == instance_id@,
        r is Err ==> (forall|j: int|
            0 <= j < instances@.len() ==> !names_instance(#[trigger] instances@[j], instance_id@))
            || (exists|a: int, b: int|
            0 <= a < b < instances@.len() && names_instance(instances@[a], instance_id@)
                && names_instance(instances@[b], instance_id@)),
{
    let mut found: Option<usize> = None;
    let mut i: usize = 0;
    while i < instances.len()
        invariant
            i <= instances.len(),
            found is Some ==> found->0 < i && names_instance(
                instances@[found->0 as int],
                instance_id@,
            ),
            forall|j: int|
                0 <= j < i && Some(j as usize) != found ==> !names_instance(
                    #[trigger] instances@[j],
                    instance_id@,
                ),
        decreases instances.len() - i,
    {
        let hit = same_text(instances[i].id.as_str(), instance_id) || same_text(
            instances[i].name.as_str(),
            instance_id,
        );
        if hit {
            match found {
                Some(first) => {
                    proof {
                        assert(names_instance(instances@[first as int], instance_id@));
                        assert(names_instance(instances@[i as int], instance_id@));
                    }
                    return Err(GciError::InstanceNotFound(String::from_str(instance_id)));
                },
                None => {
                    found = Some(i);
                },
            }
        }
        i += 1;
    }
    match found {
        Some(at) => Ok(at),
        None => Err(GciError::InstanceNotFound(String::from_str(instance_id))),
    }
}

/// Reads whether a run of the tool succeeded. A failure becomes an error
/// whose detail is the operation's heading and what the tool wrote to its
/// error stream.
pub fn check_output(op: Operation, output: &CommandOutput) -> (r: Result<(), GciError>)
    ensures
        r is Ok == output.success,
        r is Err ==> r->Err_0 is ProviderUnavailable && detail_of(r->Err_0) == failure_heading(op)
            + output.stderr@,
{
    if output.success {
        Ok(())
    } else {
        let heading = match op {
            Operation::List => String::from_str("Failed to list instances: "),
            Operation::Describe => String::from_str("Failed to get instance details: "),
            Operation::Start => String::from_str("Failed to start instance: "),
            Operation::Stop => String::from_str("Failed to stop instance: "),
            Operation::Restart => String::from_str("Failed to restart instance: "),
            Operation::Delete => String::from_str("Failed to delete instance: "),
        };
        Err(GciError::ProviderUnavailable(heading.concat(output.stderr.as_str())))
    }
}

} // verus!
