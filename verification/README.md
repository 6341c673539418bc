# hpcac

The decision core of the HPC@Cloud toolkit, verified with Verus, and the
command line around it.

- `src/` is the verified library: cluster and node records, AWS resource
  naming, reuse-or-create and cleanup decisions for every cluster resource,
  the spawn and termination plans with their progress, the deadlines of the
  cluster's waits, the instance capacity retry, pricing and
  catalog readers, spot interruption notices, Systems Manager commands, SSH
  command lines and tmux jobs, and the Vultr API readers.
- `app/` is the `hpcac` program: the command line, a local JSON store of
  provider configurations, clusters and instance types, progress bars,
  prompts, the SSH processes, and the AWS SDK and Vultr HTTP calls that the
  library's plans and decisions drive.
- `tests/` exercises the library on concrete values.
