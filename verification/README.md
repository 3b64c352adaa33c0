# easyenv

A desktop tool that sets up development environments: it downloads and installs
the software of an environment, puts it on the search path, runs the
environment's scripts, and rolls back when the user stops it or a piece of
software fails. A script that fails is reported and does not undo the rest.

The decisions are a library, verified with Verus:

| Module | What it decides |
| --- | --- |
| `install`, `install_laws` | the installation of one piece of software, step by step |
| `environment`, `environment_laws` | the installation of an environment, and its rollback |
| `package` | how a downloaded file is installed, and what a failure means |
| `commands` | the programs that install a package or run a script, and how their reports are read |
| `download` | what is said when a download fails |
| `path_search` | which directory of the software goes on the search path |
| `search_path` | how a directory is put on the search path |
| `places` | where files are kept |
| `clock` | the lines and the names of the logs |
| `version`, `update` | version numbers, and the check for a newer release |
| `cancel` | which installations the user has stopped |
| `window` | the tray menu and the window |
| `model`, `text` | the data, and text as sequences of characters |

`install`, `environment` and `path_search` act on nothing themselves: they ask
for one action at a time and are told what came of it. The program in `app/`
carries the actions out, in a window made with Tauri.

`Local::now` of `chrono`, the directories of `dirs`, the JSON values of
`serde_json` and the status texts of `reqwest` are called from the library; what
is relied on of each is stated at the call.
