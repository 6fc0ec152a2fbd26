//! Editors: which ones there are, and how a project or a file is opened in
//! one.

use vstd::prelude::*;
use crate::numbers::{decimal, decimal_of};
use crate::seqs::{lemma_deep_vec};
use crate::text::{append_chars, chars_of, push_text, same_text, string_of};

verus! {

broadcast use lemma_deep_vec;

/// An editor.
#[derive(Debug, Clone)]
pub struct InstalledIde {
    pub id: String,
    pub name: String,
    pub command: String,
}

pub struct InstalledIdeModel {
    pub id: Seq<char>,
    pub name: Seq<char>,
    pub command: Seq<char>,
}

impl DeepView for InstalledIde {
    type V = InstalledIdeModel;

    open spec fn deep_view(&self) -> InstalledIdeModel {
        InstalledIdeModel { id: self.id@, name: self.name@, command: self.command@ }
    }
}

/// An editor of the catalog.
pub open spec fn ide(id: Seq<char>, name: Seq<char>, command: Seq<char>) -> InstalledIdeModel {
    InstalledIdeModel { id: id, name: name, command: command }
}

/// The editors that are looked for.
pub open spec fn ide_catalog() -> Seq<InstalledIdeModel> {
    seq![
        ide("vscode"@, "VS Code"@, "code"@),
        ide("cursor"@, "Cursor"@, "cursor"@),
        ide("zed"@, "Zed"@, "zed"@),
        ide("sublime"@, "Sublime Text"@, "subl"@),
        ide("nova"@, "Nova"@, "nova"@),
        ide("rustrover"@, "RustRover"@, "rustrover"@),
        ide("idea"@, "IntelliJ IDEA"@, "idea"@),
        ide("clion"@, "CLion"@, "clion"@),
        ide("fleet"@, "Fleet"@, "fleet"@),
        ide("kiro"@, "AWS Kiro"@, "kiro"@),
        ide("antigravity"@, "Google Antigravity"@, "antigravity"@),
        ide("neovim"@, "Neovim"@, "nvim"@),
        ide("vim"@, "Vim"@, "vim"@),
        ide("emacs"@, "Emacs"@, "emacs"@),
    ]
}

/// An editor of the catalog.
pub fn new_ide(id: &str, name: &str, command: &str) -> (r: InstalledIde)
    ensures
        r.deep_view() == ide(id@, name@, command@),
{
    InstalledIde { id: id.to_owned(), name: name.to_owned(), command: command.to_owned() }
}

/// The editors that are looked for.
pub fn known_ides() -> (r: Vec<InstalledIde>)
    ensures
        r.deep_view() == ide_catalog(),
{
    let mut out: Vec<InstalledIde> = Vec::new();
    out.push(new_ide("vscode", "VS Code", "code"));
    out.push(new_ide("cursor", "Cursor", "cursor"));
    out.push(new_ide("zed", "Zed", "zed"));
    out.push(new_ide("sublime", "Sublime Text", "subl"));
    out.push(new_ide("nova", "Nova", "nova"));
    out.push(new_ide("rustrover", "RustRover", "rustrover"));
    out.push(new_ide("idea", "IntelliJ IDEA", "idea"));
    out.push(new_ide("clion", "CLion", "clion"));
    out.push(new_ide("fleet", "Fleet", "fleet"));
    out.push(new_ide("kiro", "AWS Kiro", "kiro"));
    out.push(new_ide("antigravity", "Google Antigravity", "antigravity"));
    out.push(new_ide("neovim", "Neovim", "nvim"));
    out.push(new_ide("vim", "Vim", "vim"));
    out.push(new_ide("emacs", "Emacs", "emacs"));
    assert(out.deep_view() =~= ide_catalog());
    out
}

/// The items of a list whose flag is set; an item without a flag is left out.
pub open spec fn flagged<T>(items: Seq<T>, flags: Seq<bool>) -> Seq<T>
    decreases items.len(),
{
    if items.len() == 0 {
        Seq::empty()
    } else {
        let rest = flagged(items.drop_last(), flags);
        if items.len() - 1 < flags.len() && flags[items.len() - 1] {
            rest.push(items.last())
        } else {
            rest
        }
    }
}

/// The editors that were found, in the order of the catalog: `found` says for
/// each editor of the catalog whether its command is there.
pub fn installed_ides(found: &Vec<bool>) -> (r: Vec<InstalledIde>)
    ensures
        r.deep_view() == flagged(ide_catalog(), found@),
{
    let all = known_ides();
    let ghost catalog = all.deep_view();
    let mut out: Vec<InstalledIde> = Vec::new();
    let mut i: usize = 0;
    assert(catalog.take(0) =~= Seq::<InstalledIdeModel>::empty());
    assert(out.deep_view() =~= Seq::<InstalledIdeModel>::empty());
    while i < all.len()
        invariant
            i <= all.len(),
            catalog == all.deep_view(),
            out.deep_view() == flagged(catalog.take(i as int), found@),
        decreases all.len() - i,
    {
        proof {
            assert(catalog.take(i + 1).drop_last() =~= catalog.take(i as int));
            assert(catalog.take(i + 1).last() == all@[i as int].deep_view());
        }
        if i < found.len() && found[i] {
            let ghost before = out.deep_view();
            let e = InstalledIde {
                id: all[i].id.clone(),
                name: all[i].name.clone(),
                command: all[i].command.clone(),
            };
            out.push(e);
            assert(out.deep_view() =~= before.push(e.deep_view()));
        }
        i += 1;
    }
    assert(catalog.take(all.len() as int) =~= catalog);
    out
}

/// Whether an editor runs in a terminal.
pub open spec fn runs_in_terminal(command: Seq<char>) -> bool {
    command == "nvim"@ || command == "vim"@ || command == "emacs"@
}

/// Whether an editor runs in a terminal.
pub fn is_terminal_editor(command: &str) -> (r: bool)
    ensures
        r == runs_in_terminal(command@),
{
    same_text(command, "nvim") || same_text(command, "vim") || same_text(command, "emacs")
}

/// How an editor is started.
#[derive(Debug, Clone)]
pub enum IdeLaunch {
    /// By a script that is handed to the terminal application.
    Terminal { script: String },
    /// By running a program with arguments.
    Direct { program: String, args: Vec<String> },
}

pub enum IdeLaunchModel {
    Terminal { script: Seq<char> },
    Direct { program: Seq<char>, args: Seq<Seq<char>> },
}

impl DeepView for IdeLaunch {
    type V = IdeLaunchModel;

    open spec fn deep_view(&self) -> IdeLaunchModel {
        match self {
            IdeLaunch::Terminal { script } => IdeLaunchModel::Terminal { script: script@ },
            IdeLaunch::Direct { program, args } => IdeLaunchModel::Direct {
                program: program@,
                args: args.deep_view(),
            },
        }
    }
}

/// The script that makes the terminal application run a command.
pub open spec fn terminal_script(command: Seq<char>) -> Seq<char> {
    "tell application \"Terminal\"\n                    activate\n                    do script \""@
        + command + "\"\n                end tell"@
}

/// The command that opens a project in an editor of the terminal.
pub open spec fn project_command(project_path: Seq<char>, editor: Seq<char>) -> Seq<char> {
    "cd '"@ + project_path + "' && "@ + editor
}

/// The command that opens a file at a line in an editor of the terminal.
pub open spec fn file_command(editor: Seq<char>, line: u32, file_path: Seq<char>) -> Seq<char> {
    editor + " +"@ + decimal(line as nat) + " '"@ + file_path + "'"@
}

/// A file and a line as most editors take them: the file, a colon, the line.
pub open spec fn file_at_line(file_path: Seq<char>, line: u32) -> Seq<char> {
    file_path + ":"@ + decimal(line as nat)
}

/// The arguments with which an editor opens a file at a line.
pub open spec fn file_arguments(editor: Seq<char>, file_path: Seq<char>, line: u32) -> Seq<
    Seq<char>,
> {
    if editor == "code"@ || editor == "cursor"@ || editor == "kiro"@ || editor == "antigravity"@ {
        seq!["--goto"@, file_at_line(file_path, line)]
    } else if editor == "zed"@ || editor == "subl"@ || editor == "nova"@ {
        seq![file_at_line(file_path, line)]
    } else if editor == "idea"@ || editor == "rustrover"@ || editor == "clion"@ || editor
        == "fleet"@ {
        seq!["--line"@, decimal(line as nat), file_path]
    } else if runs_in_terminal(editor) {
        Seq::empty()
    } else {
        seq![file_path]
    }
}

/// How a project is opened in an editor.
pub open spec fn project_launch_of(project_path: Seq<char>, editor: Seq<char>) -> IdeLaunchModel {
    if runs_in_terminal(editor) {
        IdeLaunchModel::Terminal {
            script: terminal_script(project_command(project_path, editor)),
        }
    } else {
        IdeLaunchModel::Direct { program: editor, args: seq![project_path] }
    }
}

/// How a file is opened at a line in an editor.
pub open spec fn file_launch_of(
    file_path: Seq<char>,
    line: u32,
    editor: Seq<char>,
) -> IdeLaunchModel {
    if runs_in_terminal(editor) {
        IdeLaunchModel::Terminal { script: terminal_script(file_command(editor, line, file_path)) }
    } else {
        IdeLaunchModel::Direct { program: editor, args: file_arguments(editor, file_path, line) }
    }
}

/// The script that makes the terminal application run a command.
pub fn script_for(command: &Vec<char>) -> (r: String)
    ensures
        r@ == terminal_script(command@),
{
    let mut out = chars_of(
        "tell application \"Terminal\"\n                    activate\n                    do script \"",
    );
    append_chars(&mut out, command);
    push_text(&mut out, "\"\n                end tell");
    string_of(&out)
}

/// A file and a line as most editors take them.
pub fn file_with_line(file_path: &str, line: u32) -> (r: String)
    ensures
        r@ == file_at_line(file_path@, line),
{
    let mut out = chars_of(file_path);
    push_text(&mut out, ":");
    append_chars(&mut out, &decimal_of(line as u64));
    string_of(&out)
}

/// How a project is opened in an editor.
pub fn project_launch(project_path: &str, editor: &str) -> (r: IdeLaunch)
    ensures
        r.deep_view() == project_launch_of(project_path@, editor@),
{
    if is_terminal_editor(editor) {
        let mut command = chars_of("cd '");
        push_text(&mut command, project_path);
        push_text(&mut command, "' && ");
        push_text(&mut command, editor);
        IdeLaunch::Terminal { script: script_for(&command) }
    } else {
        let mut args: Vec<String> = Vec::new();
        args.push(project_path.to_owned());
        assert(args.deep_view() =~= seq![project_path@]);
        IdeLaunch::Direct { program: editor.to_owned(), args }
    }
}

/// The arguments with which an editor opens a file at a line.
pub fn file_args(editor: &str, file_path: &str, line: u32) -> (r: Vec<String>)
    ensures
        r.deep_view() == file_arguments(editor@, file_path@, line),
{
    let mut args: Vec<String> = Vec::new();
    if same_text(editor, "code") || same_text(editor, "cursor") || same_text(editor, "kiro")
        || same_text(editor, "antigravity") {
        args.push("--goto".to_owned());
        args.push(file_with_line(file_path, line));
        assert(args.deep_view() =~= seq!["--goto"@, file_at_line(file_path@, line)]);
    } else if same_text(editor, "zed") || same_text(editor, "subl") || same_text(editor, "nova") {
        args.push(file_with_line(file_path, line));
        assert(args.deep_view() =~= seq![file_at_line(file_path@, line)]);
    } else if same_text(editor, "idea") || same_text(editor, "rustrover") || same_text(
        editor,
        "clion",
    ) || same_text(editor, "fleet") {
        args.push("--line".to_owned());
        args.push(string_of(&decimal_of(line as u64)));
        args.push(file_path.to_owned());
        assert(args.deep_view() =~= seq!["--line"@, decimal(line as nat), file_path@]);
    } else if is_terminal_editor(editor) {
        assert(args.deep_view() =~= Seq::<Seq<char>>::empty());
    } else {
        args.push(file_path.to_owned());
        assert(args.deep_view() =~= seq![file_path@]);
    }
    args
}

/// How a file is opened at a line in an editor.
pub fn file_launch(file_path: &str, line: u32, editor: &str) -> (r: IdeLaunch)
    ensures
        r.deep_view() == file_launch_of(file_path@, line, editor@),
{
    if is_terminal_editor(editor) {
        let mut command = chars_of(editor);
        push_text(&mut command, " +");
        append_chars(&mut command, &decimal_of(line as u64));
        push_text(&mut command, " '");
        push_text(&mut command, file_path);
        push_text(&mut command, "'");
        IdeLaunch::Terminal { script: script_for(&command) }
    } else {
        IdeLaunch::Direct { program: editor.to_owned(), args: file_args(editor, file_path, line) }
    }
}

} // verus!
