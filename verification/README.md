# postgres-topology-operator

A Kubernetes operator that keeps PostgreSQL databases, schemas and login roles
in line with custom resources.

- `src/` is the verified library (Verus).  Each reconciler is a state machine:
  `owned_object` for databases and schemas, `role` for roles.  A step takes the
  answer to the last command and returns the next command; `connection` decides
  the client settings of an admin connection, `sql` builds the statements, and
  `laws` states what holds across steps (deletion only drops, finalizers go
  last, an object in its desired state is left unchanged, a stored password
  encoding is reused, extra roles are granted in order).
- `app/` is the program: the controllers, the Kubernetes and PostgreSQL calls
  that perform the commands, and the resource types with their serde and CRD
  derives.
- `tests/` runs the library on concrete resources.
