//! What the user can ask for on the command line, as plain values.

use vstd::prelude::*;

verus! {

/// The name of the file that `template` writes where none is given.
pub const DEFAULT_TEMPLATE_FILE: &'static str = "specs-template.yaml";

/// The template of a run specification.
pub const CONFIG_YAML: &'static str = "build:
  baseimage: \"python:latest\"
  description: \"default image for demos\"
  sourcecode:
    url: \"https://github.com/AustrianDataLAB/execDAT\"
    branch: \"main\"
    dependencies:
      os:
      - name: curl
        version: latest
      pip:
      - name: pandas
        version: latest
    entrypoint: python
description: \"default run\"
inputdata:
  datapath: \"/data\"
  transformcmd: \"echo 'transform'\"
  type: \"https\"
  url: \"https://github.com/AustrianDataLAB/execDAT\"
outputdata:
  datapath: \"/data/output\"
  url: \"https://github.com/AustrianDataLAB/execDAT\"";

/// The arguments of the program.
#[derive(Clone, Debug, PartialEq, Eq)]
pub struct Arguments {
    /// The subcommand to execute.
    pub subcommand: SubCommands,
}

/// Sends a request to the server.
#[derive(Clone, Debug, PartialEq, Eq)]
pub struct RunCommandArgs {
    /// Name of or path to the request specification.
    pub input_file: String,
}

/// Writes a template of the request specification.
#[derive(Clone, Debug, PartialEq, Eq)]
pub struct TemplateCommandArgs {
    /// Name of or path to the output file. An existing file is not
    /// overwritten unless `force_overwrite` is set.
    pub output_file: String,
    /// Whether an existing file is overwritten.
    pub force_overwrite: bool,
}

/// Shows the status of one request.
#[derive(Clone, Debug, PartialEq, Eq)]
pub struct StatusCommandArgs {
    /// The name of the request.
    pub request_name: String,
}

/// Lists all requests.
#[derive(Clone, Debug, PartialEq, Eq)]
pub struct ListCommandArgs {}

/// All subcommands.
#[derive(Clone, Debug, PartialEq, Eq)]
pub enum SubCommands {
    Run(RunCommandArgs),
    Template(TemplateCommandArgs),
    Status(StatusCommandArgs),
    List(ListCommandArgs),
}

pub enum SubCommandsView {
    Run { input_file: Seq<char> },
    Template { output_file: Seq<char>, force_overwrite: bool },
    Status { request_name: Seq<char> },
    List,
}

impl View for SubCommands {
    type V = SubCommandsView;

    open spec fn view(&self) -> SubCommandsView {
        match self {
            SubCommands::Run(args) => SubCommandsView::Run { input_file: args.input_file@ },
            SubCommands::Template(args) => SubCommandsView::Template {
                output_file: args.output_file@,
                force_overwrite: args.force_overwrite,
            },
            SubCommands::Status(args) => SubCommandsView::Status {
                request_name: args.request_name@,
            },
            SubCommands::List(_) => SubCommandsView::List,
        }
    }
}

impl View for Arguments {
    type V = SubCommandsView;

    open spec fn view(&self) -> SubCommandsView {
        self.subcommand@
    }
}

} // verus!
