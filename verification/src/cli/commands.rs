use vstd::prelude::*;

verus! {

/// `scratch config` subcommands.
#[derive(Debug, PartialEq)]
pub enum ConfigSubcommand {
    /// Get configuration value by key
    Get { key: String },
    /// Set configuration value by key
    SetValue { key: String, value: String },
    /// List all configuration values and descriptions
    List,
    /// Reset configuration to factory defaults
    Reset,
}

/// `scratch sdk` subcommands.
#[derive(Debug, Clone, Copy, PartialEq, Eq, Structural)]
pub enum SdkSubcommand {
    /// Detailed info about installed SDK, compiler, toolchains
    Info,
    /// Print installed SDK version
    Version,
    /// Print path to Scratch SDK cache / directory
    Path,
    /// Verify SDK component integrity and subsystems
    Check,
}

/// `scratch project` subcommands; paths are given as text.
#[derive(Debug, PartialEq)]
pub enum ProjectSubcommand {
    /// Check project or script for errors without running
    Check { path: Option<String> },
    /// Lint .sch files for common game errors and educational guidance
    Lint { path: Option<String> },
    /// Format .sch source files deterministically
    Format { path: Option<String>, check: bool },
    /// Run automated game simulations and assertions
    Test { path: Option<String> },
    /// Display project metadata, scene listing, asset counts, line statistics
    Info { path: Option<String> },
    /// Create a new .scene file in scenes/
    AddScene { name: String, path: Option<String> },
    /// Add an asset file into the project assets directory
    AddAsset { asset_path: String, asset_type: Option<String>, path: Option<String> },
    /// Launch interactive native Scratch Studio Desktop IDE
    Studio { path: Option<String>, port: u16, no_open: bool },
}

/// `scratch package` subcommands; paths are given as text.
#[derive(Debug, PartialEq)]
pub enum PackageSubcommand {
    /// Package project into a standalone .scratch archive bundle
    Pack { path: Option<String>, out: Option<String> },
    /// Extract a .scratch package archive into a project directory
    Unpack { file: String, out: Option<String> },
    /// Inspect metadata and contents of a .scratch package
    Info { file: String },
    /// Export game for web browser canvas deployment
    ExportWeb { path: Option<String>, out: Option<String> },
    /// Export standalone Scratch Studio IDE bundle
    ExportStudio { path: Option<String>, out: Option<String> },
}

/// The inspector tabs of the desktop studio.
#[derive(Debug, Clone, Copy, PartialEq, Eq, Structural)]
pub enum StudioTab {
    Variables,
    Entities,
    Diagnostics,
}

} // verus!
