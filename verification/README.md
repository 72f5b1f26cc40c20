# fuzix

Developer tool for FUZIX OS: project configuration, native toolchain
installation, compilation, disk-image maintenance and emulator sessions.

- `src/` is the verified library. It holds every decision the tool makes:
  configuration defaults, toolchain layout and download URLs, compiler, linker
  and `make` invocations, the plans that prepare disk images and emulator
  working directories, what the downloaded archives yield (the boot data
  file, and the root image and boot data of the 68000 disk archive), the
  `ucp` scripts that edit disk images, the text of the sample program, and
  the state machine that drives a scripted emulator session and extracts the
  program's output from its log. Each function states what it returns in its
  contract, in terms of the spec functions of `src/` and of named results of
  outside code: the standard library's path decomposition (`path_file_name`,
  `path_parent`, `path_file_stem`, the values `Path::file_name`,
  `Path::parent` and `Path::file_stem` give) and the entries of a
  gzip-compressed tar archive as `flate2` and `tar` decode them
  (`tar_gz_entries_spec`); `proof fn lemma_*` items state the laws that span
  several calls.
- `app/` is the command-line program around it: argument parsing, file and
  network I/O, child processes and pseudo terminals. It asks the library what
  to do and carries it out; the one archive it unpacks itself is a toolchain
  bundle, which `tar` writes straight to disk.
- `tests/` runs the library on concrete inputs.

Paths inside the library are strings whose components are separated by `/`.
