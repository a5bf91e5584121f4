//! The decisions of the workflow editor that do not depend on how its nodes
//! are drawn: which file node a dropped file goes to, and whether a
//! workflow can be run.
use vstd::prelude::*;
use crate::text::{views, owned, cat, same_text};
use crate::paths::{file_name, path_file_name};

verus! {

/// Where a file dropped on the workflow editor goes.
#[derive(Debug)]
pub enum FileNodeTarget {
    /// The workflow has no nodes yet: the drop is ignored.
    Ignored,
    /// The workflow has nodes but none that takes a file.
    NoFileNodes,
    /// The file goes to the node with this id, an output node or an input node.
    Assign { id: String, output: bool },
}

/// Where a dropped file goes, as plain values: the id and whether it is an
/// output node, when it is assigned.
pub open spec fn target_view(t: FileNodeTarget) -> Option<(Seq<char>, bool)> {
    match t {
        FileNodeTarget::Assign { id, output } => Some((id@, output)),
        _ => None,
    }
}

/// The node a dropped file goes to, given the ids of the input and output
/// file nodes in the order the caller lists them, how many nodes there are,
/// and the selected node: the selected node when it is a file node, else
/// the first input node, else the first output node.
pub open spec fn file_node_choice(
    inputs: Seq<Seq<char>>,
    outputs: Seq<Seq<char>>,
    node_count: nat,
    selected: Option<Seq<char>>,
) -> Option<Option<(Seq<char>, bool)>> {
    if inputs.len() == 0 && outputs.len() == 0 && node_count > 0 {
        Some(None)
    } else if node_count == 0 {
        None
    } else {
        Some(Some(
            match selected {
                Some(sel) => if inputs.contains(sel) {
                    (sel, false)
                } else if outputs.contains(sel) {
                    (sel, true)
                } else if inputs.len() > 0 {
                    (inputs[0], false)
                } else {
                    (outputs[0], true)
                },
                None => if inputs.len() > 0 {
                    (inputs[0], false)
                } else {
                    (outputs[0], true)
                },
            },
        ))
    }
}

/// Whether the list holds the id.
fn lists_id(ids: &Vec<String>, id: &str) -> (r: bool)
    ensures
        r == views(ids@).contains(id@),
{
    let ghost all = views(ids@);
    let mut i: usize = 0;
    while i < ids.len()
        invariant
            all == views(ids@),
            i <= ids@.len(),
            forall|j: int| 0 <= j < i ==> all[j] != id@,
        decreases ids@.len() - i,
    {
        if same_text(ids[i].as_str(), id) {
            assert(all[i as int] == id@);
            return true;
        }
        i = i + 1;
    }
    false
}

/// Where a dropped file goes: `Ignored` for an empty workflow,
/// `NoFileNodes` when no node takes a file, else the node it is assigned to.
pub fn file_node_target(
    input_ids: &Vec<String>,
    output_ids: &Vec<String>,
    node_count: usize,
    selected: Option<&str>,
) -> (r: FileNodeTarget)
    ensures
        match file_node_choice(views(input_ids@), views(output_ids@), node_count as nat,
            match selected { Some(s) => Some(s@), None => None }) {
            None => r is Ignored,
            Some(None) => r is NoFileNodes,
            Some(Some(t)) => target_view(r) == Some(t),
        },
{
    if input_ids.len() == 0 && output_ids.len() == 0 && node_count > 0 {
        return FileNodeTarget::NoFileNodes;
    }
    if node_count == 0 {
        return FileNodeTarget::Ignored;
    }
    let ghost ins = views(input_ids@);
    let ghost outs = views(output_ids@);
    let first = if input_ids.len() > 0 {
        assert(ins[0] == input_ids@[0]@);
        FileNodeTarget::Assign { id: input_ids[0].clone(), output: false }
    } else {
        assert(outs[0] == output_ids@[0]@);
        FileNodeTarget::Assign { id: output_ids[0].clone(), output: true }
    };
    match selected {
        Some(sel) => {
            if lists_id(input_ids, sel) {
                FileNodeTarget::Assign { id: owned(sel), output: false }
            } else if lists_id(output_ids, sel) {
                FileNodeTarget::Assign { id: owned(sel), output: true }
            } else {
                first
            }
        },
        None => first,
    }
}

/// The parameter of a file node that holds the file.
pub open spec fn file_parameter(output: bool) -> Seq<char> {
    if output { "output_path"@ } else { "file_path"@ }
}

/// The parameter of a file node that holds the file.
pub fn file_parameter_name(output: bool) -> (r: &'static str)
    ensures
        r@ == file_parameter(output),
{
    if output { "output_path" } else { "file_path" }
}

/// What the editor says after assigning a file to a node.
pub open spec fn assigned_message(output: bool, path: Seq<char>) -> Seq<char> {
    "File assigned to "@ + (if output { "Output"@ } else { "Input"@ }) + " node: "@
        + match file_name(path) {
            Some(n) => n,
            None => Seq::empty(),
        }
}

/// What the editor says after assigning a file to a node.
pub fn assigned_status(output: bool, path: &str) -> (r: String)
    ensures
        r@ == assigned_message(output, path@),
{
    let mut r = owned("File assigned to ");
    r.append(if output { "Output" } else { "Input" });
    r.append(" node: ");
    match path_file_name(path) {
        Some(n) => r.append(n.as_str()),
        None => {},
    }
    r
}

/// What the editor says when a dropped file finds no file node.
pub fn no_file_nodes_status() -> (r: &'static str)
    ensures
        r@ == "No Input or Output File nodes found. Add a file node first."@,
{
    "No Input or Output File nodes found. Add a file node first."
}

/// What the editor says when a file is dropped with no workflow open.
pub fn no_workflow_status() -> (r: &'static str)
    ensures
        r@ == "No workflow loaded. Switch to automation editor first."@,
{
    "No workflow loaded. Switch to automation editor first."
}

/// Why a workflow cannot run: it has no nodes, no input file node, or no
/// output file node, in that order of checking.
pub open spec fn run_refusal(node_count: nat, has_input: bool, has_output: bool) -> Option<Seq<char>> {
    if node_count == 0 {
        Some("No nodes in workflow"@)
    } else if !has_input {
        Some("No input file node found"@)
    } else if !has_output {
        Some("No output file node found"@)
    } else {
        None
    }
}

/// Whether a workflow can run: `Ok` when it can, else the message saying why not.
pub fn check_workflow_runnable(node_count: usize, has_input: bool, has_output: bool) -> (r: Result<(), &'static str>)
    ensures
        match (r, run_refusal(node_count as nat, has_input, has_output)) {
            (Ok(_), None) => true,
            (Err(m), Some(w)) => m@ == w,
            _ => false,
        },
{
    if node_count == 0 {
        Err("No nodes in workflow")
    } else if !has_input {
        Err("No input file node found")
    } else if !has_output {
        Err("No output file node found")
    } else {
        Ok(())
    }
}

/// What the editor says after asking the executor to run the workflow.
pub open spec fn run_message(outcome: Result<(), Seq<char>>) -> Seq<char> {
    match outcome {
        Ok(_) => "Workflow execution started successfully"@,
        Err(e) => "Workflow execution failed: "@ + e,
    }
}

/// What the editor says after asking the executor to run the workflow.
pub fn run_status(outcome: Result<(), String>) -> (r: String)
    ensures
        r@ == run_message(match outcome { Ok(_) => Ok(()), Err(e) => Err(e@) }),
{
    match outcome {
        Ok(_) => owned("Workflow execution started successfully"),
        Err(e) => cat("Workflow execution failed: ", e.as_str()),
    }
}

/// A selected file node always receives the file; with no file node
/// selected, an input node is preferred to an output node.
pub proof fn lemma_selected_file_node_wins(
    inputs: Seq<Seq<char>>,
    outputs: Seq<Seq<char>>,
    node_count: nat,
    sel: Seq<char>,
)
    requires
        node_count > 0,
        inputs.contains(sel) || outputs.contains(sel),
    ensures
        file_node_choice(inputs, outputs, node_count, Some(sel)) matches Some(Some(t)) && t.0 == sel,
        inputs.len() > 0 ==> file_node_choice(inputs, outputs, node_count, None) == Some(Some((inputs[0], false))),
{
}

} // verus!
