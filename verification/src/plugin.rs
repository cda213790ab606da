//! Plugin commands: which operation on the plugin store a subcommand asks
//! for. The store itself, and the package manager behind it, lie outside
//! this library.

use vstd::prelude::*;

verus! {

/// A plugin subcommand as the command line gave it.
#[derive(Clone, Debug, PartialEq, Eq)]
pub enum PluginSubcommands {
    /// List the installed plugins.
    List { all: bool },
    /// Install `plugin`.
    Install { plugin: String, version: Option<String> },
    /// Remove `plugin`.
    Uninstall { plugin: String },
    /// Bring `plugin` up to date.
    Update { plugin: String },
    /// Switch `plugin` on, or off where `disable` is set.
    Enable { plugin: String, disable: bool },
    /// Show what is known of `plugin`.
    Info { plugin: String },
}

/// A `PluginSubcommands` as mathematical values.
pub enum SubcommandView {
    List { all: bool },
    Install { plugin: Seq<char>, version: Option<Seq<char>> },
    Uninstall { plugin: Seq<char> },
    Update { plugin: Seq<char> },
    Enable { plugin: Seq<char>, disable: bool },
    Info { plugin: Seq<char> },
}

impl View for PluginSubcommands {
    type V = SubcommandView;

    open spec fn view(&self) -> SubcommandView {
        match self {
            PluginSubcommands::List { all } => SubcommandView::List { all: *all },
            PluginSubcommands::Install { plugin, version } => SubcommandView::Install {
                plugin: plugin@,
                version: match version {
                    Some(v) => Some(v@),
                    None => None,
                },
            },
            PluginSubcommands::Uninstall { plugin } => SubcommandView::Uninstall {
                plugin: plugin@,
            },
            PluginSubcommands::Update { plugin } => SubcommandView::Update { plugin: plugin@ },
            PluginSubcommands::Enable { plugin, disable } => SubcommandView::Enable {
                plugin: plugin@,
                disable: *disable,
            },
            PluginSubcommands::Info { plugin } => SubcommandView::Info { plugin: plugin@ },
        }
    }
}

/// One operation on the plugin store.
#[derive(Clone, Debug, PartialEq, Eq)]
pub enum PluginOperation {
    List,
    Install { plugin: String },
    Uninstall { plugin: String },
    Update { plugin: String },
    Enable { plugin: String },
    Disable { plugin: String },
    Info { plugin: String },
}

/// A `PluginOperation` as mathematical values.
pub enum OperationView {
    List,
    Install { plugin: Seq<char> },
    Uninstall { plugin: Seq<char> },
    Update { plugin: Seq<char> },
    Enable { plugin: Seq<char> },
    Disable { plugin: Seq<char> },
    Info { plugin: Seq<char> },
}

impl View for PluginOperation {
    type V = OperationView;

    open spec fn view(&self) -> OperationView {
        match self {
            PluginOperation::List => OperationView::List,
            PluginOperation::Install { plugin } => OperationView::Install { plugin: plugin@ },
            PluginOperation::Uninstall { plugin } => OperationView::Uninstall { plugin: plugin@ },
            PluginOperation::Update { plugin } => OperationView::Update { plugin: plugin@ },
            PluginOperation::Enable { plugin } => OperationView::Enable { plugin: plugin@ },
            PluginOperation::Disable { plugin } => OperationView::Disable { plugin: plugin@ },
            PluginOperation::Info { plugin } => OperationView::Info { plugin: plugin@ },
        }
    }
}

/// The operation a subcommand asks for. Listing ignores `all`, installing
/// ignores the version, and `Enable` with `disable` set switches the plugin
/// off.
pub open spec fn operation_for(subcommand: SubcommandView) -> OperationView {
    match subcommand {
        SubcommandView::List { .. } => OperationView::List,
        SubcommandView::Install { plugin, .. } => OperationView::Install { plugin },
        SubcommandView::Uninstall { plugin } => OperationView::Uninstall { plugin },
        SubcommandView::Update { plugin } => OperationView::Update { plugin },
        SubcommandView::Enable { plugin, disable } => if disable {
            OperationView::Disable { plugin }
        } else {
            OperationView::Enable { plugin }
        },
        SubcommandView::Info { plugin } => OperationView::Info { plugin },
    }
}

/// Chooses the operation that `subcommand` asks for. Carrying it out is the
/// caller's part.
pub fn run_plugin_command(subcommand: &PluginSubcommands) -> (operation: PluginOperation)
    ensures
        operation@ == operation_for(subcommand@),
{
    match subcommand {
        PluginSubcommands::List { .. } => PluginOperation::List,
        PluginSubcommands::Install { plugin, .. } => PluginOperation::Install {
            plugin: plugin.clone(),
        },
        PluginSubcommands::Uninstall { plugin } => PluginOperation::Uninstall {
            plugin: plugin.clone(),
        },
        PluginSubcommands::Update { plugin } => PluginOperation::Update { plugin: plugin.clone() },
        PluginSubcommands::Enable { plugin, disable } => if *disable {
            PluginOperation::Disable { plugin: plugin.clone() }
        } else {
            PluginOperation::Enable { plugin: plugin.clone() }
        },
        PluginSubcommands::Info { plugin } => PluginOperation::Info { plugin: plugin.clone() },
    }
}

} // verus!
