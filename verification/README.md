# vinmod_kernel

The logic of the VinMod kernel builder, verified with Verus: the kernel build
configuration, the layout of a build's files, the shell scripts and texts of
each build stage, and the build itself as a state machine that decides, from
the outcome of each action, what the build does next.

- `src/builder.rs`: the build options and the configuration builder.
- `src/commands.rs`: the kernel configuration lines and the stage scripts.
- `src/paths.rs`: where a build puts its files.
- `src/program.rs`: the instruction list of a build, stage by stage.
- `src/run.rs`: the build machine that steps through that list.
- `src/properties.rs`: properties of whole builds (where a build writes, how
  its stages go step by step).
- `src/service.rs`: build stages, build errors and the build service.
- `src/infra.rs`: the command runner and file system a build uses.
- `src/form.rs`: what the build form derives from the user's choices and from
  the messages of a running build.
- `src/text.rs`: text helpers (decimal numbers, shell quoting, splitting).
- `app/`: the GNOME application: the window, the form, and the loop that
  performs each action of the build machine on the real system.
