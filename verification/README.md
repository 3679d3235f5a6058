# sunrise_launcher

The verified core of the Project Sunrise launcher, written in Verus.

- `src/text.rs`: trimming, searching and UTF-8 length on the character view of strings.
- `src/paths.rs`: joining paths the way `Path::join` does: with `/` on macOS and Linux, and a
  file name onto a folder with `\` on Windows.
- `src/error.rs`: the launcher's errors and the messages the interface shows for them.
- `src/models.rs`: the user's saved settings.
- `src/crossover.rs`: CrossOver support on macOS: bottle names, backends, the files CrossOver
  keeps, the status shown in Settings, and the command lines that create the bottle and start
  the game; with the laws that tie them together.
- `src/commands.rs`: the decisions of the launcher's commands: console answers, the
  installation folder and language kept in the settings, the Windows launch.
- `app/`: the host side, unverified: probing the Mac, running CrossOver's tools and the game,
  the operation state and the console channel to DepotDownloader, and the serde copies.
- `tests/`: the tests, run against the compiled library.
