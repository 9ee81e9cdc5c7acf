# alumet_plugins

The decision logic of a set of measurement plugins (perf events, procfs, Grace Hopper hwmon
telemetry, NVIDIA GPUs through NVML, Jetson INA sensors, lm-sensors, Quarch power modules,
Kwollect, and the filter, energy-to-carbon, Prometheus and OpenTelemetry stages), written in
Verus: each function states in its contract what it computes, and Verus proves it.

## Layout

- `src/` — the verified library, one module per plugin, plus `text` and `pieces` (the string
  handling that the parsers share). The calls into outside crates (perf-event2, regex, chrono,
  and a few std functions) go through small trusted wrappers whose contracts are documented
  where they stand.
- `tests/` — tests of the library on concrete values.
- `app/` — the input and output around the library: sysfs and procfs reads, the hwmon and INA
  device discovery, the NVML calls, the Quarch TCP link, and the floating-point estimates
  (energies, carbon emissions, Quarch power) that the library does not handle.
