# blendfarm

The verified core of a network render farm for Blender, written in Verus.

- `src/` is the library. Each public function carries a `requires`/`ensures`
  contract that Verus proves:
  - the job and ticket planning (`ticket_service`, `host`);
  - the shared-file and job-queue bookkeeping (`file_service`, `job_manager`);
  - the decisions of the host, the render nodes, the server, the client, the
    network service, the desktop window and the file transfer (`host`, `node`,
    `server`, `client`, `network`, `display`, `transfer`);
  - the decoding of stored rows (`records`);
  - the HTML fragments of the front end (`html`, `images`).
  
  `external` holds the calls into std and the outside crates, each behind one
  trusted item whose contract restates what that function is documented to do.
- `tests/` runs the library on concrete values.
- `app/` is the command-line program around the library: it reads and writes
  the settings file, lists directories, and prints plans and pages.
