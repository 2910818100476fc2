//! The opaque command payloads of the strategy chain and of the
//! manual-terminal fallback, one per dependency, host system and tier,
//! and the dispatch that picks them. The payloads are handed unchanged
//! to the command runner; which combination yields which payload is
//! pinned here.

use vstd::prelude::*;

use crate::orchestrate::HostOs;
use crate::orchestrate::InstallTarget;
use crate::orchestrate::StrategyTier;
use crate::strutil::str_eq;

verus! {

/// Primary online method for the interpreter on Windows: the system
/// package manager.
pub const NODEJS_WINGET_SCRIPT: &'static str = "
$ErrorActionPreference = 'Stop'
$nodeVersion = node --version 2>$null
if ($nodeVersion) { Write-Host \"Node.js already present: $nodeVersion\"; exit 0 }
$hasWinget = Get-Command winget -ErrorAction SilentlyContinue
if (-not $hasWinget) { exit 1 }
winget install --id OpenJS.NodeJS.LTS --accept-source-agreements --accept-package-agreements
exit $LASTEXITCODE
";

/// Secondary online method for the interpreter on Windows: a version
/// manager fetched over the network.
pub const NODEJS_FNM_SCRIPT: &'static str = "
$ErrorActionPreference = 'Stop'
irm https://fnm.vercel.app/install.ps1 | iex
$env:FNM_DIR = \"$env:USERPROFILE\\.fnm\"
$env:Path = \"$env:FNM_DIR;$env:Path\"
fnm install 22
fnm default 22
fnm use 22
node --version
";

/// Primary online method for the interpreter on macOS: Homebrew,
/// bootstrapped first when absent.
pub const NODEJS_BREW_SCRIPT: &'static str = "
if ! command -v brew > /dev/null 2>&1; then
    /bin/bash -c \"$(curl -fsSL https://raw.githubusercontent.com/Homebrew/install/HEAD/install.sh)\"
    if [ -f /opt/homebrew/bin/brew ]; then
        eval \"$(/opt/homebrew/bin/brew shellenv)\"
    elif [ -f /usr/local/bin/brew ]; then
        eval \"$(/usr/local/bin/brew shellenv)\"
    fi
fi
brew install node@22
brew link --overwrite node@22
node --version
";

/// Primary online method for the interpreter on Linux: the NodeSource
/// repository through the distribution's package manager.
pub const NODEJS_NODESOURCE_SCRIPT: &'static str = "
if command -v apt-get > /dev/null 2>&1; then
    curl -fsSL https://deb.nodesource.com/setup_22.x | sudo -E bash -
    sudo apt-get install -y nodejs
elif command -v dnf > /dev/null 2>&1; then
    curl -fsSL https://rpm.nodesource.com/setup_22.x | sudo bash -
    sudo dnf install -y nodejs
elif command -v yum > /dev/null 2>&1; then
    curl -fsSL https://rpm.nodesource.com/setup_22.x | sudo bash -
    sudo yum install -y nodejs
else
    exit 1
fi
node --version
";

/// Secondary online method for the interpreter on Linux: the
/// distribution package where NodeSource is unavailable.
pub const NODEJS_PACMAN_SCRIPT: &'static str = "
if command -v pacman > /dev/null 2>&1; then
    sudo pacman -S nodejs npm --noconfirm
else
    exit 1
fi
node --version
";

/// Primary online method for the application on Windows: the package
/// registry through npm.
pub const OPENCLAW_NPM_WINDOWS_SCRIPT: &'static str = "
$ErrorActionPreference = 'Stop'
$nodeVersion = node --version 2>$null
if (-not $nodeVersion) { Write-Host 'Node.js is required first'; exit 1 }
npm install -g openclaw@latest --unsafe-perm --registry=https://registry.npmmirror.com
openclaw --version
";

/// Primary online method for the application on Unix-like systems: the
/// package registry through npm.
pub const OPENCLAW_NPM_UNIX_SCRIPT: &'static str = "
if ! command -v node > /dev/null 2>&1; then
    echo 'Node.js is required first'
    exit 1
fi
npm install -g openclaw@latest --unsafe-perm --registry=https://registry.npmmirror.com
openclaw --version
";

/// Manual-terminal fallback for the interpreter on Windows: an elevated
/// interactive window driving the system package manager.
pub const NODEJS_TERMINAL_WINDOWS_SCRIPT: &'static str = "
Start-Process powershell -ArgumentList '-NoExit', '-Command', '
Write-Host \"Node.js setup\" -ForegroundColor White
$hasWinget = Get-Command winget -ErrorAction SilentlyContinue
if ($hasWinget) {
    winget install --id OpenJS.NodeJS.LTS --accept-source-agreements --accept-package-agreements
} else {
    Write-Host \"Download Node.js from:\" -ForegroundColor Yellow
    Write-Host \"https://nodejs.org/en/download\" -ForegroundColor Green
    Start-Process \"https://nodejs.org/en/download\"
}
Write-Host \"Restart the manager when done\" -ForegroundColor Green
Read-Host \"Press enter to close this window\"
' -Verb RunAs
";

/// Manual-terminal fallback for the interpreter on macOS: an
/// interactive window driving Homebrew.
pub const NODEJS_TERMINAL_MACOS_SCRIPT: &'static str = "#!/bin/bash
clear
echo 'Node.js setup'
if ! command -v brew > /dev/null 2>&1; then
    /bin/bash -c \"$(curl -fsSL https://raw.githubusercontent.com/Homebrew/install/HEAD/install.sh)\"
    if [ -f /opt/homebrew/bin/brew ]; then
        eval \"$(/opt/homebrew/bin/brew shellenv)\"
    elif [ -f /usr/local/bin/brew ]; then
        eval \"$(/usr/local/bin/brew shellenv)\"
    fi
fi
brew install node@22
brew link --overwrite node@22
node --version
read -p 'Press enter to close this window...'
";

/// Manual-terminal fallback for the application on Windows.
pub const OPENCLAW_TERMINAL_WINDOWS_SCRIPT: &'static str = "
Start-Process powershell -ArgumentList '-NoExit', '-Command', '
Write-Host \"OpenClaw setup\" -ForegroundColor White
npm install -g openclaw@latest
openclaw config set gateway.mode local
openclaw --version
Read-Host \"Press enter to close this window\"
'
";

/// Manual-terminal fallback for the application on macOS and Linux.
pub const OPENCLAW_TERMINAL_UNIX_SCRIPT: &'static str = "#!/bin/bash
clear
echo 'OpenClaw setup'
npm install -g openclaw@latest
openclaw config set gateway.mode local 2>/dev/null || true
mkdir -p ~/.openclaw/agents/main/sessions
mkdir -p ~/.openclaw/agents/main/agent
mkdir -p ~/.openclaw/credentials
openclaw --version
read -p 'Press enter to close this window...'
";

/// The online-method payload of a tier, per dependency and host: `None`
/// where the chain has no script for that slot (the offline tier, which
/// installs a bundled package file instead, an unsupported host, or a
/// dependency with no secondary method on that host).
pub open spec fn spec_strategy_script(
    target: InstallTarget,
    os: HostOs,
    tier: StrategyTier,
) -> Option<Seq<char>> {
    match (target, os, tier) {
        (InstallTarget::Interpreter, HostOs::Windows, StrategyTier::PrimaryOnline) => Option::Some(
            NODEJS_WINGET_SCRIPT@,
        ),
        (InstallTarget::Interpreter, HostOs::Windows, StrategyTier::SecondaryOnline) => Option::Some(
            NODEJS_FNM_SCRIPT@,
        ),
        (InstallTarget::Interpreter, HostOs::Macos, StrategyTier::PrimaryOnline) => Option::Some(
            NODEJS_BREW_SCRIPT@,
        ),
        (InstallTarget::Interpreter, HostOs::Linux, StrategyTier::PrimaryOnline) => Option::Some(
            NODEJS_NODESOURCE_SCRIPT@,
        ),
        (InstallTarget::Interpreter, HostOs::Linux, StrategyTier::SecondaryOnline) => Option::Some(
            NODEJS_PACMAN_SCRIPT@,
        ),
        (InstallTarget::Application, HostOs::Windows, StrategyTier::PrimaryOnline) => Option::Some(
            OPENCLAW_NPM_WINDOWS_SCRIPT@,
        ),
        (InstallTarget::Application, HostOs::Macos, StrategyTier::PrimaryOnline) => Option::Some(
            OPENCLAW_NPM_UNIX_SCRIPT@,
        ),
        (InstallTarget::Application, HostOs::Linux, StrategyTier::PrimaryOnline) => Option::Some(
            OPENCLAW_NPM_UNIX_SCRIPT@,
        ),
        _ => Option::None,
    }
}

pub fn strategy_script(target: InstallTarget, os: HostOs, tier: StrategyTier) -> (r: Option<
    String,
>)
    ensures
        r.deep_view() == spec_strategy_script(target, os, tier),
{
    match (target, os, tier) {
        (InstallTarget::Interpreter, HostOs::Windows, StrategyTier::PrimaryOnline) => Some(
            String::from_str(NODEJS_WINGET_SCRIPT),
        ),
        (InstallTarget::Interpreter, HostOs::Windows, StrategyTier::SecondaryOnline) => Some(
            String::from_str(NODEJS_FNM_SCRIPT),
        ),
        (InstallTarget::Interpreter, HostOs::Macos, StrategyTier::PrimaryOnline) => Some(
            String::from_str(NODEJS_BREW_SCRIPT),
        ),
        (InstallTarget::Interpreter, HostOs::Linux, StrategyTier::PrimaryOnline) => Some(
            String::from_str(NODEJS_NODESOURCE_SCRIPT),
        ),
        (InstallTarget::Interpreter, HostOs::Linux, StrategyTier::SecondaryOnline) => Some(
            String::from_str(NODEJS_PACMAN_SCRIPT),
        ),
        (InstallTarget::Application, HostOs::Windows, StrategyTier::PrimaryOnline) => Some(
            String::from_str(OPENCLAW_NPM_WINDOWS_SCRIPT),
        ),
        (InstallTarget::Application, HostOs::Macos, StrategyTier::PrimaryOnline) => Some(
            String::from_str(OPENCLAW_NPM_UNIX_SCRIPT),
        ),
        (InstallTarget::Application, HostOs::Linux, StrategyTier::PrimaryOnline) => Some(
            String::from_str(OPENCLAW_NPM_UNIX_SCRIPT),
        ),
        _ => None,
    }
}

/// The manual-terminal payload per dependency and host; `None` where no
/// supervised path exists (the interpreter on Linux, where the user is
/// pointed at a manual install, and any unsupported host).
pub open spec fn spec_terminal_script(target: InstallTarget, os: HostOs) -> Option<Seq<char>> {
    match (target, os) {
        (InstallTarget::Interpreter, HostOs::Windows) => Option::Some(
            NODEJS_TERMINAL_WINDOWS_SCRIPT@,
        ),
        (InstallTarget::Interpreter, HostOs::Macos) => Option::Some(
            NODEJS_TERMINAL_MACOS_SCRIPT@,
        ),
        (InstallTarget::Application, HostOs::Windows) => Option::Some(
            OPENCLAW_TERMINAL_WINDOWS_SCRIPT@,
        ),
        (InstallTarget::Application, HostOs::Macos) => Option::Some(
            OPENCLAW_TERMINAL_UNIX_SCRIPT@,
        ),
        (InstallTarget::Application, HostOs::Linux) => Option::Some(
            OPENCLAW_TERMINAL_UNIX_SCRIPT@,
        ),
        _ => Option::None,
    }
}

pub fn terminal_script(target: InstallTarget, os: HostOs) -> (r: Option<String>)
    ensures
        r.deep_view() == spec_terminal_script(target, os),
{
    match (target, os) {
        (InstallTarget::Interpreter, HostOs::Windows) => Some(
            String::from_str(NODEJS_TERMINAL_WINDOWS_SCRIPT),
        ),
        (InstallTarget::Interpreter, HostOs::Macos) => Some(
            String::from_str(NODEJS_TERMINAL_MACOS_SCRIPT),
        ),
        (InstallTarget::Application, HostOs::Windows) => Some(
            String::from_str(OPENCLAW_TERMINAL_WINDOWS_SCRIPT),
        ),
        (InstallTarget::Application, HostOs::Macos) => Some(
            String::from_str(OPENCLAW_TERMINAL_UNIX_SCRIPT),
        ),
        (InstallTarget::Application, HostOs::Linux) => Some(
            String::from_str(OPENCLAW_TERMINAL_UNIX_SCRIPT),
        ),
        _ => None,
    }
}

/// Where the manual-terminal script file is written before the terminal
/// opens it; `None` where the payload is run directly or none exists.
pub open spec fn spec_terminal_script_path(target: InstallTarget, os: HostOs) -> Option<
    Seq<char>,
> {
    match (target, os) {
        (InstallTarget::Interpreter, HostOs::Macos) => Option::Some(
            "/tmp/openclaw_install_nodejs.command"@,
        ),
        (InstallTarget::Application, HostOs::Macos) => Option::Some(
            "/tmp/openclaw_install_openclaw.command"@,
        ),
        (InstallTarget::Application, HostOs::Linux) => Option::Some(
            "/tmp/openclaw_install_openclaw.sh"@,
        ),
        _ => Option::None,
    }
}

pub fn terminal_script_path(target: InstallTarget, os: HostOs) -> (r: Option<String>)
    ensures
        r.deep_view() == spec_terminal_script_path(target, os),
{
    match (target, os) {
        (InstallTarget::Interpreter, HostOs::Macos) => Some(
            String::from_str("/tmp/openclaw_install_nodejs.command"),
        ),
        (InstallTarget::Application, HostOs::Macos) => Some(
            String::from_str("/tmp/openclaw_install_openclaw.command"),
        ),
        (InstallTarget::Application, HostOs::Linux) => Some(
            String::from_str("/tmp/openclaw_install_openclaw.sh"),
        ),
        _ => None,
    }
}

/// The terminal emulators tried, in order, to open the script on Linux.
pub fn linux_terminal_candidates() -> (r: Vec<String>)
    ensures
        r.deep_view() == seq!["gnome-terminal"@, "xfce4-terminal"@, "konsole"@, "xterm"@],
{
    let mut r: Vec<String> = Vec::new();
    r.push(String::from_str("gnome-terminal"));
    r.push(String::from_str("xfce4-terminal"));
    r.push(String::from_str("konsole"));
    r.push(String::from_str("xterm"));
    assert(r.deep_view() =~~= seq!["gnome-terminal"@, "xfce4-terminal"@, "konsole"@, "xterm"@]);
    r
}

/// The dependency named by a manual-install request; `None` for an
/// unknown name.
pub open spec fn spec_install_target_of(s: Seq<char>) -> Option<InstallTarget> {
    if s == "nodejs"@ {
        Option::Some(InstallTarget::Interpreter)
    } else if s == "openclaw"@ {
        Option::Some(InstallTarget::Application)
    } else {
        Option::None
    }
}

pub fn parse_install_target(s: &str) -> (r: Option<InstallTarget>)
    ensures
        r == spec_install_target_of(s@),
{
    if str_eq(s, "nodejs") {
        Some(InstallTarget::Interpreter)
    } else if str_eq(s, "openclaw") {
        Some(InstallTarget::Application)
    } else {
        None
    }
}

} // verus!
