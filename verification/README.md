# virt_container

How a runtime for containers in virtual machines treats one container: what it
rewrites in the container's specification, which outside work each request asks
for and in which order, and what a failure leads to. The rules are written and
proved in Verus.

- `src/amend.rs`: the specification as the guest is to see it (hooks, namespaces,
  seccomp, SELinux labels, VFIO devices).
- `src/container.rs`: the state of a container, and the requests that change or
  read it (kill, exec, delete, pause, resume, resize).
- `src/limits.rs`: the resource limits: what the resource manager is told, and an
  update.
- `src/create.rs`: the stages from a specification to the agent's request.
- `src/start.rs`, `src/stop.rs`, `src/checkpoint.rs`: the steps of a start, a stop
  and a checkpoint, and the termination message.
- `src/shim_ctl.rs`: the sessions of the control program.
- `src/config.rs`, `src/process.rs`, `src/oci.rs`, `src/error.rs`: the data.
- `src/path.rs`, `src/string_map.rs`, `src/text.rs`, `src/lists.rs`: what the rest
  is built on.

Requests that need the guest agent, the resource manager or the host's filesystem
return a step. The caller does the work and hands the outcome to the matching
`..._next`, `..._handled` or `..._answered` function. `app/` is that caller.

Parts of a specification that no rule looks into are carried along as values of
the `oci_spec` crate. Of that crate, only the `clone` of resource limits is
trusted, to give back the same value.
