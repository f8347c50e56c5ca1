//! The catalogue of tools that the server advertises.

use vstd::prelude::*;
use crate::server::{dispatch_of, lemma_advertised_routes, ToolRoute};
use crate::types::ReleaseTrack;

verus! {

/// The shape of the arguments that a tool takes.
#[derive(Debug, Clone, Copy, PartialEq, Eq, Structural)]
pub enum ArgumentShape {
    Empty,
    Probe,
    Describe,
    Call,
}

/// One tool as the server advertises it.
#[derive(Debug, Clone, Copy)]
pub struct ToolSpec {
    pub name: &'static str,
    pub description: &'static str,
    pub arguments: ArgumentShape,
}

/// The names of the tools that a release track exposes, in the order in which they
/// are listed: the help alone on the rollback track.
pub open spec fn tool_names(track: ReleaseTrack) -> Seq<Seq<char>> {
    if track.inspector_allowed() {
        seq![
            "help"@,
            "inspector_probe"@,
            "inspector_list_tools"@,
            "inspector_describe"@,
            "inspector_call"@,
        ]
    } else {
        seq!["help"@]
    }
}

/// The shape of the arguments of the tool that a route handles.
pub open spec fn arguments_of(route: ToolRoute) -> ArgumentShape {
    match route {
        ToolRoute::Probe => ArgumentShape::Probe,
        ToolRoute::ListTools => ArgumentShape::Probe,
        ToolRoute::Describe => ArgumentShape::Describe,
        ToolRoute::Call => ArgumentShape::Call,
        _ => ArgumentShape::Empty,
    }
}

/// The catalogue of tools.
#[derive(Debug, Clone, Copy)]
pub struct ToolRegistry {
    release_track: ReleaseTrack,
}

impl ToolRegistry {
    /// The release track of the catalogue.
    pub closed spec fn track(&self) -> ReleaseTrack {
        self.release_track
    }

    /// The catalogue for a release track.
    pub fn new(release_track: ReleaseTrack) -> (registry: Self)
        ensures
            registry.track() == release_track,
    {
        ToolRegistry { release_track }
    }

    /// The release track of the catalogue.
    pub fn release_track(&self) -> (track: ReleaseTrack)
        ensures
            track == self.track(),
    {
        self.release_track
    }

    /// The tools that the server advertises on its release track. Each of them is
    /// routed to a handler when it is called on that track.
    pub fn list(&self) -> (tools: Vec<ToolSpec>)
        ensures
            tools.len() == tool_names(self.track()).len(),
            forall|i: int|
                0 <= i < tools.len() ==> (#[trigger] tools[i]).name@ == tool_names(self.track())[i],
            forall|i: int|
                0 <= i < tools.len() ==> dispatch_of(self.track(), (#[trigger] tools[i]).name@)
                    is Route && dispatch_of(self.track(), tools[i].name@)->Route_0
                    != ToolRoute::Unknown && tools[i].arguments == arguments_of(
                    dispatch_of(self.track(), tools[i].name@)->Route_0,
                ),
    {
        let mut tools: Vec<ToolSpec> = Vec::new();
        tools.push(
            ToolSpec {
                name: "help",
                description: "Deterministic reference manual for every tool exposed by this server.",
                arguments: ArgumentShape::Empty,
            },
        );
        if self.release_track.allows_inspector() {
            tools.push(
                ToolSpec {
                    name: "inspector_probe",
                    description: "Connect to a target MCP and retrieve version/latency details.",
                    arguments: ArgumentShape::Probe,
                },
            );
            tools.push(
                ToolSpec {
                    name: "inspector_list_tools",
                    description: "List target MCP tools across stdio/SSE/HTTP transports.",
                    arguments: ArgumentShape::Probe,
                },
            );
            tools.push(
                ToolSpec {
                    name: "inspector_describe",
                    description: "Describe a target MCP tool including schemas and annotations.",
                    arguments: ArgumentShape::Describe,
                },
            );
            tools.push(
                ToolSpec {
                    name: "inspector_call",
                    description: "Call a target MCP tool via stdio/SSE/HTTP transports.",
                    arguments: ArgumentShape::Call,
                },
            );
        }
        proof {
            lemma_advertised_routes();
        }
        tools
    }
}

} // verus!
