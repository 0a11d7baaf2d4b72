# blog

A blog runtime module, verified with Verus.

Owners create blogs, add posts to them, edit, lock and unlock them; any
signed account may reply to a post or to a reply. Each call either succeeds,
changing the storage and depositing one event, or is refused with an error
and leaves the module exactly as it was.

- `src/types.rs`: identifiers, origins, errors, events, posts.
- `src/module.rs`: the abstract state (`BlogState`), one outcome function per
  call, and the executable module (`BlogModule`) whose calls are proved to
  follow those outcomes.
- `src/laws.rs`: properties across calls (storage consistency, one event per
  accepted call, nothing is removed, only owners write, locks, read-back).
- `src/mock.rs`: building a module with chosen limits; generated texts.
- `src/fixtures.rs`: ready-made requests and checks used by the tests.
