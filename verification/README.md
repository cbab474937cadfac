# disable_apm

A verified library for a Windows tool that disables Advanced Power Management
(APM) on mechanical hard drives, so that they stop spinning down.

- `src/` is the library, verified with Verus. It decides everything the tool
  does: the mode the command line selects, the run over the disks (which
  disks are examined, in which order, which are skipped: SSDs always, USB
  drives unless `--usb` is given, and on which the APM command is sent), the
  install and uninstall runs, every console message and error, the ATA
  command that disables APM, and how the storage driver's replies are read.
  The runs are state machines: they ask for one piece of I/O at a time and
  take its outcome back.
- `app/` is the program: command-line parsing, console colours, and the
  Windows device, file-system and Task Scheduler calls that the library asks
  for.
- `tests/` runs the library on concrete inputs.
