//! The command-line surface as plain data: the parsed global options and the
//! two subcommands.
use vstd::prelude::*;

verus! {

/// Global options and the optional bare search query.
#[derive(Debug)]
pub struct Cli {
    pub command: Option<Command>,
    pub query: Option<String>,
    pub api_key: Option<String>,
    pub max_results: Option<usize>,
    pub json: bool,
    pub preview: bool,
    pub verbose: bool,
    pub timeout: u64,
}

/// The subcommands: fetch one URL, or run the research agent.
#[derive(Debug)]
pub enum Command {
    Fetch { url: String },
    Agent {
        query: String,
        model: String,
        ollama_url: String,
        max_iterations: usize,
        show_thinking: bool,
        disable_reasoning: bool,
        preview: bool,
    },
}

impl Cli {
    /// The bare search query, when one was given.
    pub fn get_query(&self) -> (r: Option<&str>)
        ensures
            match self.query {
                Some(ref q) => r matches Some(v) && v@ == q@,
                None => r is None,
            },
    {
        match &self.query {
            Some(q) => Some(q.as_str()),
            None => None,
        }
    }
}

} // verus!
