//! Shell integration scripts for bash and fish: wrapper functions for the
//! SSH tools and the interactive commands, and host completion.

use vstd::prelude::*;

verus! {

/// Bash helper functions for shell integration.
pub const BASH_FUNCTIONS: &'static str = "# fterm shell integration for bash\n\
\n\
# Transparent wrappers — route through fterm for logging/tmux/MSYS2.\n\
ssh() { command fterm ssh \"$@\"; }\n\
scp() { command fterm scp \"$@\"; }\n\
ssh-add() { command fterm ssh-add \"$@\"; }\n\
ssh-keygen() { command fterm ssh-keygen \"$@\"; }\n\
\n\
# Interactive SSH host selection — select a host, record in history, and execute.\n\
fssh() {\n\
\x20\x20\x20\x20local result\n\
\x20\x20\x20\x20result=$(command fterm fssh 2>/dev/null)\n\
\x20\x20\x20\x20local status=$?\n\
\x20\x20\x20\x20if [ $status -eq 0 ] && [ -n \"$result\" ]; then\n\
\x20\x20\x20\x20\x20\x20\x20\x20history -s \"$result\"\n\
\x20\x20\x20\x20\x20\x20\x20\x20eval \"$result\"\n\
\x20\x20\x20\x20fi\n\
\x20\x20\x20\x20return $status\n\
}\n\
\n\
# Interactive log viewer — select a log file and open viewer.\n\
flog() {\n\
\x20\x20\x20\x20local result\n\
\x20\x20\x20\x20result=$(command fterm flog 2>/dev/null)\n\
\x20\x20\x20\x20local status=$?\n\
\x20\x20\x20\x20if [ $status -eq 0 ] && [ -n \"$result\" ]; then\n\
\x20\x20\x20\x20\x20\x20\x20\x20history -s \"$result\"\n\
\x20\x20\x20\x20\x20\x20\x20\x20eval \"$result\"\n\
\x20\x20\x20\x20fi\n\
\x20\x20\x20\x20return $status\n\
}\n\
\n\
# SSH/SCP option and host completion for 'fterm ssh' and 'fterm scp'\n\
_fterm_ssh_hosts() {\n\
\x20\x20\x20\x20local cur=\"${COMP_WORDS[COMP_CWORD]}\"\n\
\x20\x20\x20\x20local subcmd=\"${COMP_WORDS[1]}\"\n\
\x20\x20\x20\x20if [[ \"$subcmd\" == \"ssh\" ]]; then\n\
\x20\x20\x20\x20\x20\x20\x20\x20if [[ \"$cur\" == -* ]]; then\n\
\x20\x20\x20\x20\x20\x20\x20\x20\x20\x20\x20\x20local ssh_opts=\"-4 -6 -A -a -B -b -C -c -D -E -e -F -f -G -g -I -i -J -K -k -L -l -M -m -N -n -O -o -P -p -Q -q -R -S -s -T -t -V -v -W -w -X -x -Y -y\"\n\
\x20\x20\x20\x20\x20\x20\x20\x20\x20\x20\x20\x20COMPREPLY+=($(compgen -W \"$ssh_opts\" -- \"$cur\"))\n\
\x20\x20\x20\x20\x20\x20\x20\x20else\n\
\x20\x20\x20\x20\x20\x20\x20\x20\x20\x20\x20\x20local hosts\n\
\x20\x20\x20\x20\x20\x20\x20\x20\x20\x20\x20\x20hosts=$(command fterm completion bash --list-hosts 2>/dev/null)\n\
\x20\x20\x20\x20\x20\x20\x20\x20\x20\x20\x20\x20COMPREPLY+=($(compgen -W \"$hosts\" -- \"$cur\"))\n\
\x20\x20\x20\x20\x20\x20\x20\x20fi\n\
\x20\x20\x20\x20elif [[ \"$subcmd\" == \"scp\" ]]; then\n\
\x20\x20\x20\x20\x20\x20\x20\x20if [[ \"$cur\" == -* ]]; then\n\
\x20\x20\x20\x20\x20\x20\x20\x20\x20\x20\x20\x20local scp_opts=\"-3 -4 -6 -B -C -c -D -F -f -i -J -l -O -o -P -p -q -R -r -S -s -T -v\"\n\
\x20\x20\x20\x20\x20\x20\x20\x20\x20\x20\x20\x20COMPREPLY+=($(compgen -W \"$scp_opts\" -- \"$cur\"))\n\
\x20\x20\x20\x20\x20\x20\x20\x20else\n\
\x20\x20\x20\x20\x20\x20\x20\x20\x20\x20\x20\x20local hosts\n\
\x20\x20\x20\x20\x20\x20\x20\x20\x20\x20\x20\x20hosts=$(command fterm completion bash --list-hosts 2>/dev/null)\n\
\x20\x20\x20\x20\x20\x20\x20\x20\x20\x20\x20\x20COMPREPLY+=($(compgen -S ':' -W \"$hosts\" -- \"$cur\"))\n\
\x20\x20\x20\x20\x20\x20\x20\x20fi\n\
\x20\x20\x20\x20fi\n\
}\n\
complete -F _fterm_ssh_hosts fterm\n\
";

/// Fish helper functions for shell integration.
pub const FISH_FUNCTIONS: &'static str = "# fterm shell integration for fish\n\
\n\
# Transparent wrappers — route through fterm for logging/tmux/MSYS2.\n\
function ssh --wraps=ssh --description \"SSH via fterm\"\n\
\x20\x20\x20\x20command fterm ssh $argv\n\
end\n\
function scp --wraps=scp --description \"SCP via fterm\"\n\
\x20\x20\x20\x20command fterm scp $argv\n\
end\n\
function ssh-add --wraps=ssh-add --description \"ssh-add via fterm\"\n\
\x20\x20\x20\x20command fterm ssh-add $argv\n\
end\n\
function ssh-keygen --wraps=ssh-keygen --description \"ssh-keygen via fterm\"\n\
\x20\x20\x20\x20command fterm ssh-keygen $argv\n\
end\n\
\n\
# Interactive SSH host selection — places 'ssh <host>' on the command line.\n\
function fssh --description \"Interactive SSH host selection via fzf\"\n\
\x20\x20\x20\x20set -l result (command fterm fssh 2>/dev/null)\n\
\x20\x20\x20\x20if test $status -eq 0 -a -n \"$result\"\n\
\x20\x20\x20\x20\x20\x20\x20\x20commandline $result\n\
\x20\x20\x20\x20end\n\
end\n\
\n\
# Interactive log viewer — places viewer command on the command line.\n\
function flog --description \"Interactive log viewer via fzf\"\n\
\x20\x20\x20\x20set -l result (command fterm flog 2>/dev/null)\n\
\x20\x20\x20\x20if test $status -eq 0 -a -n \"$result\"\n\
\x20\x20\x20\x20\x20\x20\x20\x20commandline $result\n\
\x20\x20\x20\x20end\n\
end\n\
\n\
# Disable file completions for interactive commands\n\
complete --command fssh --no-files\n\
complete --command flog --no-files\n\
\n\
# SSH host completion for 'fterm ssh'\n\
complete -c fterm -n \"__fish_seen_subcommand_from ssh\" -f -a \"(command fterm completion fish --list-hosts 2>/dev/null)\"\n\
\n\
# SCP host completion for 'fterm scp' (with colon suffix)\n\
complete -c fterm -n \"__fish_seen_subcommand_from scp\" -f -a \"(command fterm completion fish --list-hosts 2>/dev/null | sed 's/\\$/:/')\"\n\
";

/// The bash integration script printed after the completion script.
pub fn bash_functions() -> (r: &'static str)
    ensures
        r@ == BASH_FUNCTIONS@,
{
    BASH_FUNCTIONS
}

/// The fish integration script printed after the completion script.
pub fn fish_functions() -> (r: &'static str)
    ensures
        r@ == FISH_FUNCTIONS@,
{
    FISH_FUNCTIONS
}

} // verus!
