mod bash;
mod fish;
mod zsh;

use vstd::prelude::*;

use crate::errors::VirtualEnvError;
use crate::virtualenv::utils::{expand_path, join_path, joined};

verus! {

#[verifier::external_type_specification]
#[verifier::external_body]
pub struct ExTemplateError(tinytemplate::error::Error);

/// What tinytemplate renders `template` to, given the fields `activate_path`
/// and `current_directory`.
pub uninterp spec fn rendered_activate(
    template: Seq<char>,
    activate_path: Seq<char>,
    current_directory: Seq<char>,
) -> Seq<char>;

/// What tinytemplate renders `template` to, given the field `forced`.
pub uninterp spec fn rendered_deactivate(template: Seq<char>, forced: bool) -> Seq<char>;

/// The activation templates of the library.
pub open spec fn is_activate_template(template: Seq<char>) -> bool {
    template == bash::ACTIVATE_TEMPLATE@ || template == fish::ACTIVATE_TEMPLATE@
}

/// The deactivation templates of the library.
pub open spec fn is_deactivate_template(template: Seq<char>) -> bool {
    template == bash::DEACTIVATE_TEMPLATE@ || template == fish::DEACTIVATE_TEMPLATE@
}

/// Relies on tinytemplate's `TinyTemplate::new`, `add_template` and `render`:
/// `template` rendered with the string fields `activate_path` and
/// `current_directory`. The output depends on the arguments alone. The
/// library's activation templates hold only text and the two fields, so
/// `add_template` compiles them and `render` finds both fields.
#[verifier::external_body]
fn render_activate_template(
    template: &str,
    activate_path: &str,
    current_directory: &str,
) -> (r: Result<String, tinytemplate::error::Error>)
    requires
        is_activate_template(template@),
    ensures
        r is Ok,
        r matches Ok(s) ==> s@ == rendered_activate(template@, activate_path@, current_directory@),
{
    let mut tt = tinytemplate::TinyTemplate::new();
    tt.add_template("activate", template)?;
    let context = std::collections::HashMap::from(
        [("activate_path", activate_path), ("current_directory", current_directory)],
    );
    tt.render("activate", &context)
}

/// Relies on tinytemplate's `TinyTemplate::new`, `add_template` and `render`:
/// `template` rendered with the boolean field `forced`. The output depends on
/// the arguments alone. The library's deactivation templates hold only text
/// and one `if forced` block, so `add_template` compiles them and `render`
/// finds the field.
#[verifier::external_body]
fn render_deactivate_template(template: &str, forced: bool) -> (r: Result<
    String,
    tinytemplate::error::Error,
>)
    requires
        is_deactivate_template(template@),
    ensures
        r is Ok,
        r matches Ok(s) ==> s@ == rendered_deactivate(template@, forced),
{
    let mut tt = tinytemplate::TinyTemplate::new();
    tt.add_template("deactivate", template)?;
    let context = std::collections::HashMap::from([("forced", forced)]);
    tt.render("deactivate", &context)
}

/// The shells whose dialect the tool speaks.
#[derive(Debug, Clone, Copy, PartialEq, Eq, Structural)]
pub enum SupportedShell {
    Zsh,
    Bash,
    Fish,
}

/// The shell that a process name denotes.
pub open spec fn shell_named(name: Seq<char>) -> Option<SupportedShell> {
    if name == "zsh"@ {
        Some(SupportedShell::Zsh)
    } else if name == "bash"@ {
        Some(SupportedShell::Bash)
    } else if name == "fish"@ {
        Some(SupportedShell::Fish)
    } else {
        None
    }
}

impl SupportedShell {
    pub open spec fn hook_spec(self) -> &'static str {
        match self {
            SupportedShell::Zsh => zsh::HOOK,
            SupportedShell::Fish => fish::HOOK,
            SupportedShell::Bash => bash::HOOK,
        }
    }

    pub open spec fn activate_template_spec(self) -> &'static str {
        match self {
            SupportedShell::Fish => fish::ACTIVATE_TEMPLATE,
            _ => bash::ACTIVATE_TEMPLATE,
        }
    }

    pub open spec fn deactivate_template_spec(self) -> &'static str {
        match self {
            SupportedShell::Fish => fish::DEACTIVATE_TEMPLATE,
            _ => bash::DEACTIVATE_TEMPLATE,
        }
    }

    pub open spec fn config_spec(self) -> &'static str {
        match self {
            SupportedShell::Fish => fish::CONFIG,
            SupportedShell::Zsh => zsh::CONFIG,
            SupportedShell::Bash => bash::CONFIG,
        }
    }

    pub open spec fn init_command_spec(self) -> &'static str {
        match self {
            SupportedShell::Fish => fish::INIT_COMMAND,
            _ => bash::INIT_COMMAND,
        }
    }

    /// The activation script that the shell sources, inside the environment `venv_root`.
    pub open spec fn activate_path_spec(self, venv_root: Seq<char>) -> Seq<char> {
        match self {
            SupportedShell::Fish => joined(joined(venv_root, "bin"@), "activate.fish"@),
            _ => joined(joined(venv_root, "bin"@), "activate"@),
        }
    }

    /// The fragment that activates the environment `venv_root`, entered in `current_path`.
    pub open spec fn activate_fragment(self, venv_root: Seq<char>, current_path: Seq<char>) -> Seq<
        char,
    > {
        rendered_activate(
            self.activate_template_spec()@,
            self.activate_path_spec(venv_root),
            current_path,
        )
    }

    /// The fragment that deactivates the active environment.
    pub open spec fn deactivate_fragment(self, forced: bool) -> Seq<char> {
        rendered_deactivate(self.deactivate_template_spec()@, forced)
    }

    /// The shell of the given name: `zsh`, `bash` or `fish`.
    pub fn from_name(input: &str) -> (r: Result<SupportedShell, VirtualEnvError>)
        ensures
            r is Ok <==> shell_named(input@) is Some,
            r matches Ok(s) ==> shell_named(input@) == Some(s),
            r matches Err(e) ==> (e matches VirtualEnvError::ShellDetectionError(n) && n@
                == input@),
    {
        let name = input.to_owned();
        if name == "zsh".to_owned() {
            Ok(SupportedShell::Zsh)
        } else if name == "bash".to_owned() {
            Ok(SupportedShell::Bash)
        } else if name == "fish".to_owned() {
            Ok(SupportedShell::Fish)
        } else {
            Err(VirtualEnvError::ShellDetectionError(name))
        }
    }

    /// The script that installs the prompt hook in this shell.
    pub fn get_hook(&self) -> (r: &'static str)
        ensures
            r == self.hook_spec(),
    {
        match self {
            SupportedShell::Zsh => zsh::HOOK,
            SupportedShell::Fish => fish::HOOK,
            _ => bash::HOOK,
        }
    }

    fn get_activate_template(&self) -> (r: &'static str)
        ensures
            r == self.activate_template_spec(),
    {
        match self {
            SupportedShell::Fish => fish::ACTIVATE_TEMPLATE,
            _ => bash::ACTIVATE_TEMPLATE,
        }
    }

    /// The startup file of this shell, with `~` and variables expanded.
    pub fn get_config_path(&self) -> (r: Result<String, VirtualEnvError>)
        ensures
            r is Err ==> r == Err::<String, VirtualEnvError>(VirtualEnvError::ConfigurationError),
    {
        let config = match self {
            SupportedShell::Fish => fish::CONFIG,
            SupportedShell::Zsh => zsh::CONFIG,
            SupportedShell::Bash => bash::CONFIG,
        };
        match expand_path(config) {
            Some(path) => Ok(path),
            None => Err(VirtualEnvError::ConfigurationError),
        }
    }

    /// The line that makes this shell load the hook at start.
    pub fn get_init_command(&self) -> (r: &'static str)
        ensures
            r == self.init_command_spec(),
    {
        match self {
            SupportedShell::Fish => fish::INIT_COMMAND,
            _ => bash::INIT_COMMAND,
        }
    }

    fn get_deactivate_template(&self) -> (r: &'static str)
        ensures
            r == self.deactivate_template_spec(),
    {
        match self {
            SupportedShell::Fish => fish::DEACTIVATE_TEMPLATE,
            _ => bash::DEACTIVATE_TEMPLATE,
        }
    }

    pub fn get_activate_path(&self, venv_root: &str) -> (r: String)
        ensures
            r@ == self.activate_path_spec(venv_root@),
    {
        let bin = join_path(venv_root, "bin");
        match self {
            SupportedShell::Fish => join_path(bin.as_str(), "activate.fish"),
            _ => join_path(bin.as_str(), "activate"),
        }
    }

    /// The fragment that sources the activation script of `venv_root` and
    /// records `current_path` as the directory where activation happened.
    pub fn render_activate(&self, venv_root: &str, current_path: &str) -> (r: Result<
        String,
        VirtualEnvError,
    >)
        ensures
            r is Ok,
            r matches Ok(s) ==> s@ == self.activate_fragment(venv_root@, current_path@),
    {
        let activate_path = self.get_activate_path(venv_root);
        match render_activate_template(
            self.get_activate_template(),
            activate_path.as_str(),
            current_path,
        ) {
            Ok(text) => Ok(text),
            Err(_) => Err(VirtualEnvError::TemplateError),
        }
    }

    /// The fragment that deactivates the active environment; when `forced`,
    /// it also records the directory of activation as one where the hook must
    /// not activate again.
    pub fn render_deactivate(&self, forced: bool) -> (r: Result<String, VirtualEnvError>)
        ensures
            r is Ok,
            r matches Ok(s) ==> s@ == self.deactivate_fragment(forced),
    {
        match render_deactivate_template(self.get_deactivate_template(), forced) {
            Ok(text) => Ok(text),
            Err(_) => Err(VirtualEnvError::TemplateError),
        }
    }
}

} // verus!
