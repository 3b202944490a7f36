//! The shell's own logic: command words, the settings file, and the small
//! path and file-name rules of its commands.
use vstd::prelude::*;
use vstd::string::*;
use crate::text::{
    chars_of, ends_with, ends_with_text, line_scan, same_text, source_lines, starts_with,
    starts_with_text, trim, trim_of,
};

verus! {

/// The commands of the shell, named by the first word of a command line.
#[derive(Debug, Clone, Copy, PartialEq, Eq, Structural)]
pub enum MommyShellCommands {
    /// `tellme`
    ShellHelp,
    /// `tellmesecret`
    ShellHelpAdvanced,
    /// `mayileave`
    ShellExit,
    /// `iamhere`
    ShellCurrentDirectory,
    /// `mommy?`
    ShellListFilesCurrentDirectory,
    /// `walkwithme <file_name>`
    ShellChangeDirectory,
    /// `goback`
    ShellReturnToPrevDirectory,
    /// `canihave <filename>`
    ShellCreateFile,
    /// `takethe <file_name>`
    ShellDeleteFile,
    /// `openthis <file_name>`
    ShellOpenFile,
    /// `readthis <file_name>`
    ShellReadFile,
    /// `doxxme`
    ShellShowIPConfig,
    /// `callmeplease <ip/dns>`
    ShellPing,
    /// `runthis <file_name>`
    ShellRunFile,
    /// `startcoding`
    ShellStartCoding,
    /// Any other word.
    ShellUnknownCommand,
    /// `clear`
    ShellClear,
    /// `letusplayhouse`
    ShellCreateDir,
    /// `removethehouse`
    ShellDeleteDir,
    /// `changeoutput`
    ShellChangeCodeDir,
}

/// The shell command that a word names.
pub open spec fn shell_command_of(w: Seq<char>) -> MommyShellCommands {
    if w == "tellme"@ {
        MommyShellCommands::ShellHelp
    } else if w == "tellmesecret"@ {
        MommyShellCommands::ShellHelpAdvanced
    } else if w == "mayileave"@ {
        MommyShellCommands::ShellExit
    } else if w == "iamhere"@ {
        MommyShellCommands::ShellCurrentDirectory
    } else if w == "mommy?"@ {
        MommyShellCommands::ShellListFilesCurrentDirectory
    } else if w == "walkwithme"@ {
        MommyShellCommands::ShellChangeDirectory
    } else if w == "goback"@ {
        MommyShellCommands::ShellReturnToPrevDirectory
    } else if w == "canihave"@ {
        MommyShellCommands::ShellCreateFile
    } else if w == "takethe"@ {
        MommyShellCommands::ShellDeleteFile
    } else if w == "openthis"@ {
        MommyShellCommands::ShellOpenFile
    } else if w == "readthis"@ {
        MommyShellCommands::ShellReadFile
    } else if w == "doxxme"@ {
        MommyShellCommands::ShellShowIPConfig
    } else if w == "callmeplease"@ {
        MommyShellCommands::ShellPing
    } else if w == "runthis"@ {
        MommyShellCommands::ShellRunFile
    } else if w == "startcoding"@ {
        MommyShellCommands::ShellStartCoding
    } else if w == "clear"@ {
        MommyShellCommands::ShellClear
    } else if w == "letusplayhouse"@ {
        MommyShellCommands::ShellCreateDir
    } else if w == "removethehouse"@ {
        MommyShellCommands::ShellDeleteDir
    } else if w == "changeoutput"@ {
        MommyShellCommands::ShellChangeCodeDir
    } else {
        MommyShellCommands::ShellUnknownCommand
    }
}

impl MommyShellCommands {
    /// Classifies the first word of a command line, exactly as written.
    pub fn from_str(token: &str) -> (r: MommyShellCommands)
        ensures
            r == shell_command_of(token@),
    {
        if same_text(token, "tellme") {
            MommyShellCommands::ShellHelp
        } else if same_text(token, "tellmesecret") {
            MommyShellCommands::ShellHelpAdvanced
        } else if same_text(token, "mayileave") {
            MommyShellCommands::ShellExit
        } else if same_text(token, "iamhere") {
            MommyShellCommands::ShellCurrentDirectory
        } else if same_text(token, "mommy?") {
            MommyShellCommands::ShellListFilesCurrentDirectory
        } else if same_text(token, "walkwithme") {
            MommyShellCommands::ShellChangeDirectory
        } else if same_text(token, "goback") {
            MommyShellCommands::ShellReturnToPrevDirectory
        } else if same_text(token, "canihave") {
            MommyShellCommands::ShellCreateFile
        } else if same_text(token, "takethe") {
            MommyShellCommands::ShellDeleteFile
        } else if same_text(token, "openthis") {
            MommyShellCommands::ShellOpenFile
        } else if same_text(token, "readthis") {
            MommyShellCommands::ShellReadFile
        } else if same_text(token, "doxxme") {
            MommyShellCommands::ShellShowIPConfig
        } else if same_text(token, "callmeplease") {
            MommyShellCommands::ShellPing
        } else if same_text(token, "runthis") {
            MommyShellCommands::ShellRunFile
        } else if same_text(token, "startcoding") {
            MommyShellCommands::ShellStartCoding
        } else if same_text(token, "clear") {
            MommyShellCommands::ShellClear
        } else if same_text(token, "letusplayhouse") {
            MommyShellCommands::ShellCreateDir
        } else if same_text(token, "removethehouse") {
            MommyShellCommands::ShellDeleteDir
        } else if same_text(token, "changeoutput") {
            MommyShellCommands::ShellChangeCodeDir
        } else {
            MommyShellCommands::ShellUnknownCommand
        }
    }
}

/// What the shell remembers between sessions.
pub struct MommySettings {
    pub output_directory: String,
    pub user_name: String,
    pub bin_exe: String,
    pub config_file_path: String,
}

/// The first `=` of a line.
pub open spec fn first_eq(line: Seq<char>) -> Option<int>
    decreases line.len(),
{
    if line.len() == 0 {
        None
    } else {
        match first_eq(line.drop_last()) {
            Some(k) => Some(k),
            None => if line.last() == '=' {
                Some(line.len() - 1)
            } else {
                None
            },
        }
    }
}

/// The settings after one line of the settings file: `output=`, `user=` and
/// `mommy_bin=` set their field to the trimmed value; other lines change
/// nothing.
pub open spec fn setting_step(st: (Seq<char>, Seq<char>, Seq<char>), line: Seq<char>) -> (
    Seq<char>,
    Seq<char>,
    Seq<char>,
) {
    match first_eq(line) {
        None => st,
        Some(k) => {
            let key = trim_of(line.take(k));
            let value = trim_of(line.skip(k + 1));
            if key == "output"@ {
                (value, st.1, st.2)
            } else if key == "user"@ {
                (st.0, value, st.2)
            } else if key == "mommy_bin"@ {
                (st.0, st.1, value)
            } else {
                st
            }
        },
    }
}

/// The settings after all the lines, from the defaults.
pub open spec fn settings_of(lines: Seq<Seq<char>>) -> (Seq<char>, Seq<char>, Seq<char>)
    decreases lines.len(),
{
    if lines.len() == 0 {
        ("sandbox"@, Seq::empty(), "mommy_bin"@)
    } else {
        setting_step(settings_of(lines.drop_last()), lines.last())
    }
}

fn find_eq(line: &str) -> (r: Option<usize>)
    ensures
        match r {
            Some(k) => k < line@.len() && first_eq(line@) == Some(k as int),
            None => first_eq(line@) is None,
        },
{
    let cs = chars_of(line);
    let mut i: usize = 0;
    assert(line@.take(0) =~= Seq::<char>::empty());
    while i < cs.len()
        invariant
            i <= cs.len(),
            cs@ == line@,
            first_eq(line@.take(i as int)) is None,
        decreases cs.len() - i,
    {
        assert(line@.take(i + 1).drop_last() =~= line@.take(i as int));
        if cs[i] == '=' {
            proof {
                lemma_first_eq_prefix(line@, i + 1);
            }
            return Some(i);
        }
        i += 1;
    }
    assert(line@.take(cs.len() as int) =~= line@);
    None
}

proof fn lemma_first_eq_prefix(s: Seq<char>, n: int)
    requires
        0 < n <= s.len(),
        first_eq(s.take(n)) is Some,
    ensures
        first_eq(s) == first_eq(s.take(n)),
    decreases s.len(),
{
    if n < s.len() {
        assert(s.drop_last().take(n) =~= s.take(n));
        lemma_first_eq_prefix(s.drop_last(), n);
    } else {
        assert(s.take(n) =~= s);
    }
}

impl MommySettings {
    /// The defaults: output to `sandbox`, no user name, binaries in `mommy_bin`.
    pub fn new(config_file_path: String) -> (r: MommySettings)
        ensures
            (r.output_directory@, r.user_name@, r.bin_exe@) == settings_of(Seq::empty()),
            r.config_file_path@ == config_file_path@,
    {
        MommySettings {
            output_directory: String::from_str("sandbox"),
            user_name: String::new(),
            bin_exe: String::from_str("mommy_bin"),
            config_file_path,
        }
    }

    fn apply_line(&mut self, line: &str)
        ensures
            (final(self).output_directory@, final(self).user_name@, final(self).bin_exe@)
                == setting_step(
                (old(self).output_directory@, old(self).user_name@, old(self).bin_exe@),
                line@,
            ),
            final(self).config_file_path == old(self).config_file_path,
    {
        let k = match find_eq(line) {
            Some(k) => k,
            None => {
                return;
            },
        };
        let n = line.unicode_len();
        let key = trim(line.substring_char(0, k));
        let value = trim(line.substring_char(k + 1, n));
        assert(line@.subrange(0, k as int) =~= line@.take(k as int));
        assert(line@.subrange(k + 1, line@.len() as int) =~= line@.skip(k + 1));
        if same_text(key, "output") {
            self.output_directory = String::from_str(value);
        } else if same_text(key, "user") {
            self.user_name = String::from_str(value);
        } else if same_text(key, "mommy_bin") {
            self.bin_exe = String::from_str(value);
        }
    }

    /// The settings that a settings file holds: lines `key=value`, the last
    /// of each key winning, the defaults for keys not given.
    pub fn from_text(content: &str, config_file_path: String) -> (r: MommySettings)
        ensures
            (r.output_directory@, r.user_name@, r.bin_exe@) == settings_of(source_lines(content@)),
            r.config_file_path@ == config_file_path@,
    {
        let cs = chars_of(content);
        let mut settings = MommySettings::new(config_file_path);
        let mut start: usize = 0;
        let mut i: usize = 0;
        let ghost mut done: Seq<Seq<char>> = Seq::empty();
        assert(content@.take(0) =~= Seq::<char>::empty());
        assert(content@.subrange(0, 0) =~= Seq::<char>::empty());
        while i < cs.len()
            invariant
                start <= i <= cs.len(),
                cs@ == content@,
                line_scan(content@.take(i as int)) == (done, content@.subrange(start as int, i as int)),
                (settings.output_directory@, settings.user_name@, settings.bin_exe@) == settings_of(done),
                settings.config_file_path@ == config_file_path@,
            decreases cs.len() - i,
        {
            let c = cs[i];
            assert(content@.take(i + 1).drop_last() =~= content@.take(i as int));
            assert(content@.take(i + 1).last() == c);
            if c == '\n' {
                let line = content.substring_char(start, i);
                settings.apply_line(line);
                proof {
                    let next = done.push(content@.subrange(start as int, i as int));
                    assert(next.drop_last() =~= done);
                    done = next;
                }
                assert(content@.subrange(i + 1, i + 1) =~= Seq::<char>::empty());
                start = i + 1;
            } else {
                assert(content@.subrange(start as int, i + 1) =~= content@.subrange(
                    start as int,
                    i as int,
                ).push(c));
            }
            i += 1;
        }
        assert(content@.take(cs.len() as int) =~= content@);
        let line = content.substring_char(start, cs.len());
        settings.apply_line(line);
        proof {
            let all = done.push(content@.subrange(start as int, cs.len() as int));
            assert(all.drop_last() =~= done);
        }
        settings
    }

    /// Whether no user name is recorded (blank counts as none).
    pub fn username_does_not_exist(&self) -> (r: bool)
        ensures
            r == (trim_of(self.user_name@).len() == 0),
    {
        trim(self.user_name.as_str()).unicode_len() == 0
    }
}

/// A line without the carriage return of a `\r\n` line break.
pub open spec fn strip_cr(l: Seq<char>) -> Seq<char> {
    if l.len() > 0 && l.last() == '\r' {
        l.drop_last()
    } else {
        l
    }
}

/// The lines of `s` as `str::lines` gives them: split at `\n` or `\r\n`, with
/// no empty line after a final line break.
pub open spec fn lines_of(s: Seq<char>) -> Seq<Seq<char>> {
    let ls = line_scan(s).0.map_values(|l: Seq<char>| strip_cr(l));
    if line_scan(s).1.len() > 0 {
        ls.push(line_scan(s).1)
    } else {
        ls
    }
}

/// A `user=...` line of the settings file.
pub open spec fn is_user_line(l: Seq<char>) -> bool {
    match first_eq(l) {
        Some(k) => trim_of(l.take(k)) == "user"@,
        None => false,
    }
}

/// The lines rewritten for a new user name, each followed by a line break.
pub open spec fn rewritten(lines: Seq<Seq<char>>, user: Seq<char>) -> Seq<char>
    decreases lines.len(),
{
    if lines.len() == 0 {
        Seq::empty()
    } else {
        rewritten(lines.drop_last(), user) + if is_user_line(lines.last()) {
            "user="@ + user + "\n"@
        } else {
            lines.last() + "\n"@
        }
    }
}

/// The settings file with its `user=` lines set to `user`, or such a line
/// added when there is none; whitespace at both ends removed.
pub open spec fn user_updated(content: Seq<char>, user: Seq<char>) -> Seq<char> {
    let ls = lines_of(content);
    trim_of(
        rewritten(ls, user) + if exists|i: int| 0 <= i < ls.len() && is_user_line(#[trigger] ls[i]) {
            Seq::empty()
        } else {
            "user="@ + user + "\n"@
        },
    )
}

fn rewrite_line(out: &mut String, found: &mut bool, line: &str, user: &str)
    ensures
        final(out)@ == old(out)@ + if is_user_line(line@) {
            "user="@ + user@ + "\n"@
        } else {
            line@ + "\n"@
        },
        *final(found) == (*old(found) || is_user_line(line@)),
{
    let user_line = match find_eq(line) {
        Some(k) => {
            let key = trim(line.substring_char(0, k));
            assert(line@.subrange(0, k as int) =~= line@.take(k as int));
            same_text(key, "user")
        },
        None => false,
    };
    if user_line {
        out.append("user=");
        out.append(user);
        *found = true;
    } else {
        out.append(line);
    }
    out.append("\n");
}

/// The settings file rewritten for a new user name, as it is saved.
pub fn user_updated_text(content: &str, user: &str) -> (r: String)
    ensures
        r@ == user_updated(content@, user@),
{
    let cs = chars_of(content);
    let mut out = String::new();
    let mut found = false;
    let mut start: usize = 0;
    let mut i: usize = 0;
    let ghost mut done: Seq<Seq<char>> = Seq::empty();
    let ghost mut seen: Seq<Seq<char>> = Seq::empty();
    assert(content@.take(0) =~= Seq::<char>::empty());
    assert(content@.subrange(0, 0) =~= Seq::<char>::empty());
    while i < cs.len()
        invariant
            start <= i <= cs.len(),
            cs@ == content@,
            line_scan(content@.take(i as int)) == (done, content@.subrange(start as int, i as int)),
            seen == done.map_values(|l: Seq<char>| strip_cr(l)),
            out@ == rewritten(seen, user@),
            found == exists|j: int| 0 <= j < seen.len() && is_user_line(#[trigger] seen[j]),
        decreases cs.len() - i,
    {
        let c = cs[i];
        assert(content@.take(i + 1).drop_last() =~= content@.take(i as int));
        assert(content@.take(i + 1).last() == c);
        if c == '\n' {
            let end = if i > start && cs[i - 1] == '\r' { i - 1 } else { i };
            let line = content.substring_char(start, end);
            proof {
                let piece = content@.subrange(start as int, i as int);
                if end < i {
                    assert(piece.drop_last() =~= content@.subrange(start as int, end as int));
                }
                assert(line@ == strip_cr(piece));
            }
            let ghost was_found = found;
            rewrite_line(&mut out, &mut found, line, user);
            proof {
                let piece = content@.subrange(start as int, i as int);
                let next = done.push(piece);
                let next_seen = seen.push(line@);
                assert(next.drop_last() =~= done);
                assert(next_seen.drop_last() =~= seen);
                assert(next_seen =~= next.map_values(|l: Seq<char>| strip_cr(l)));
                if found && !was_found {
                    assert(is_user_line(next_seen[seen.len() as int]));
                }
                if !found {
                    assert forall|j: int| 0 <= j < next_seen.len() implies !is_user_line(
                        #[trigger] next_seen[j],
                    ) by {
                        if j < seen.len() {
                            assert(next_seen[j] == seen[j]);
                        }
                    }
                }
                if was_found {
                    let j = choose|j: int| 0 <= j < seen.len() && is_user_line(#[trigger] seen[j]);
                    assert(next_seen[j] == seen[j]);
                }
                done = next;
                seen = next_seen;
            }
            assert(content@.subrange(i + 1, i + 1) =~= Seq::<char>::empty());
            start = i + 1;
        } else {
            assert(content@.subrange(start as int, i + 1) =~= content@.subrange(
                start as int,
                i as int,
            ).push(c));
        }
        i += 1;
    }
    assert(content@.take(cs.len() as int) =~= content@);
    if start < cs.len() {
        let line = content.substring_char(start, cs.len());
        let ghost was_found = found;
        rewrite_line(&mut out, &mut found, line, user);
        proof {
            let next_seen = seen.push(line@);
            assert(next_seen.drop_last() =~= seen);
            if found && !was_found {
                assert(is_user_line(next_seen[seen.len() as int]));
            }
            if !found {
                assert forall|j: int| 0 <= j < next_seen.len() implies !is_user_line(
                    #[trigger] next_seen[j],
                ) by {
                    if j < seen.len() {
                        assert(next_seen[j] == seen[j]);
                    }
                }
            }
            if was_found {
                let j = choose|j: int| 0 <= j < seen.len() && is_user_line(#[trigger] seen[j]);
                assert(next_seen[j] == seen[j]);
            }
            seen = next_seen;
        }
    }
    assert(seen == lines_of(content@));
    let ghost base = out@;
    if !found {
        out.append("user=");
        out.append(user);
        out.append("\n");
        assert(out@ =~= base + ("user="@ + user@ + "\n"@));
    } else {
        proof {
            reveal_strlit("");
        }
        assert(out@ + Seq::<char>::empty() =~= out@);
    }
    String::from_str(trim(out.as_str()))
}

/// `\\?\`, the prefix of Windows extended-length paths.
pub open spec fn win_prefix() -> Seq<char> {
    seq!['\\', '\\', '?', '\\']
}

/// A path without the Windows extended-length prefix.
pub fn clean_path_with_win_prefix(dir: &str) -> (r: String)
    ensures
        r@ == (if starts_with(dir@, win_prefix()) {
            dir@.skip(4)
        } else {
            dir@
        }),
{
    proof {
        reveal_strlit("\\\\?\\");
    }
    assert("\\\\?\\"@ =~= win_prefix());
    if starts_with_text(dir, "\\\\?\\") {
        let r = String::from_str(dir.substring_char(4, dir.unicode_len()));
        assert(dir@.subrange(4, dir@.len() as int) =~= dir@.skip(4));
        r
    } else {
        String::from_str(dir)
    }
}

/// The file name under which the editor saves a program: `.mommy` is added
/// unless the name has it already.
pub fn validate_file(clean_name: &str) -> (r: String)
    ensures
        r@ == (if ends_with(clean_name@, ".mommy"@) {
            clean_name@
        } else {
            clean_name@ + ".mommy"@
        }),
{
    if ends_with_text(clean_name, ".mommy") {
        String::from_str(clean_name)
    } else {
        let mut r = String::from_str(clean_name);
        r.append(".mommy");
        r
    }
}

} // verus!
